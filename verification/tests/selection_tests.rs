use picking::body::BodyId;
use picking::selection::{
    selection_raycast_update, DeselectionEvent, PickableBody, SelectionEvent, SelectionState,
    SelectionTargetRedirect,
};

fn plain(bits: u64) -> PickableBody {
    PickableBody { id: BodyId::new(bits), redirect: None }
}

fn proxy(bits: u64, target_bits: u64) -> PickableBody {
    PickableBody {
        id: BodyId::new(bits),
        redirect: Some(SelectionTargetRedirect(BodyId::new(target_bits))),
    }
}

struct Frame {
    state: SelectionState,
    deselections: Vec<DeselectionEvent>,
    selections: Vec<SelectionEvent>,
}

fn run_frame(bodies: &Vec<PickableBody>, hit: Option<BodyId>, state: SelectionState) -> Frame {
    let mut state = state;
    let mut deselections: Vec<DeselectionEvent> = Vec::new();
    let mut selections: Vec<SelectionEvent> = Vec::new();
    selection_raycast_update(bodies, hit, &mut state, &mut deselections, &mut selections);
    Frame { state, deselections, selections }
}

#[test]
fn first_selection_emits_only_selection() {
    let bodies = vec![plain(1), plain(2)];
    let f = run_frame(&bodies, Some(BodyId::new(1)), SelectionState::new());
    assert_eq!(f.selections, vec![SelectionEvent(BodyId::new(1))]);
    assert!(f.deselections.is_empty());
    assert_eq!(f.state.current, BodyId::new(1));
    assert_eq!(f.state.current_redirected, BodyId::new(1));
    assert_eq!(f.state.previous, BodyId::new(1));
    assert_eq!(f.state.previous_redirected, BodyId::new(1));
}

#[test]
fn rehover_same_body_is_silent() {
    let bodies = vec![plain(1), plain(2)];
    let f1 = run_frame(&bodies, Some(BodyId::new(2)), SelectionState::new());
    let f2 = run_frame(&bodies, Some(BodyId::new(2)), f1.state);
    assert!(f2.selections.is_empty());
    assert!(f2.deselections.is_empty());
    assert_eq!(f2.state, f1.state);
    let f3 = run_frame(&bodies, Some(BodyId::new(2)), f2.state);
    assert!(f3.selections.is_empty());
    assert!(f3.deselections.is_empty());
    assert_eq!(f3.state, f1.state);
}

#[test]
fn miss_after_selection_deselects_and_clears() {
    let bodies = vec![plain(1)];
    let f1 = run_frame(&bodies, Some(BodyId::new(1)), SelectionState::new());
    let f2 = run_frame(&bodies, None, f1.state);
    assert!(f2.selections.is_empty());
    assert_eq!(f2.deselections, vec![DeselectionEvent(BodyId::new(1))]);
    assert!(!f2.state.current.is_valid());
    assert!(!f2.state.current_redirected.is_valid());
    assert!(!f2.state.previous.is_valid());
    assert!(!f2.state.previous_redirected.is_valid());
}

#[test]
fn miss_with_nothing_selected_is_silent() {
    let bodies = vec![plain(1)];
    let f = run_frame(&bodies, None, SelectionState::new());
    assert!(f.selections.is_empty());
    assert!(f.deselections.is_empty());
    assert_eq!(f.state, SelectionState::new());
}

#[test]
fn redirected_proxy_records_target() {
    let bodies = vec![plain(1), proxy(2, 7)];
    let f = run_frame(&bodies, Some(BodyId::new(2)), SelectionState::new());
    assert_eq!(f.state.current, BodyId::new(2));
    assert_eq!(f.state.current_redirected, BodyId::new(7));
    assert_eq!(f.state.previous_redirected, BodyId::new(7));
    assert_eq!(f.selections, vec![SelectionEvent(BodyId::new(2))]);
}

#[test]
fn body_without_redirect_records_itself() {
    let bodies = vec![proxy(2, 7), plain(3)];
    let f = run_frame(&bodies, Some(BodyId::new(3)), SelectionState::new());
    assert_eq!(f.state.current, BodyId::new(3));
    assert_eq!(f.state.current_redirected, BodyId::new(3));
}

#[test]
fn switching_bodies_pairs_notifications() {
    let bodies = vec![plain(1), plain(2)];
    let f1 = run_frame(&bodies, Some(BodyId::new(1)), SelectionState::new());
    let f2 = run_frame(&bodies, Some(BodyId::new(2)), f1.state);
    assert_eq!(f2.selections, vec![SelectionEvent(BodyId::new(2))]);
    assert_eq!(f2.deselections, vec![DeselectionEvent(BodyId::new(1))]);
    assert_eq!(f2.state.current, BodyId::new(2));
    assert_eq!(f2.state.previous, BodyId::new(2));
}

#[test]
fn hit_on_unpickable_identity_acts_as_miss() {
    let bodies = vec![plain(1)];
    let f1 = run_frame(&bodies, Some(BodyId::new(1)), SelectionState::new());
    let f2 = run_frame(&bodies, Some(BodyId::new(9)), f1.state);
    assert!(f2.selections.is_empty());
    assert_eq!(f2.deselections, vec![DeselectionEvent(BodyId::new(1))]);
    assert!(!f2.state.current.is_valid());
}

#[test]
fn empty_body_list_never_selects() {
    let bodies: Vec<PickableBody> = Vec::new();
    let f = run_frame(&bodies, Some(BodyId::new(1)), SelectionState::new());
    assert!(f.selections.is_empty());
    assert!(f.deselections.is_empty());
    assert_eq!(f.state, SelectionState::new());
}

#[test]
fn four_frame_scenario() {
    let a = BodyId::new(10);
    let b = BodyId::new(20);
    let bodies = vec![plain(10), plain(20)];

    // Frame 1: hit A.
    let f1 = run_frame(&bodies, Some(a), SelectionState::new());
    assert_eq!(f1.selections, vec![SelectionEvent(a)]);
    assert!(f1.deselections.is_empty());

    // Frame 2: hit B.
    let f2 = run_frame(&bodies, Some(b), f1.state);
    assert_eq!(f2.selections, vec![SelectionEvent(b)]);
    assert_eq!(f2.deselections, vec![DeselectionEvent(a)]);

    // Frame 3: hit B again.
    let f3 = run_frame(&bodies, Some(b), f2.state);
    assert!(f3.selections.is_empty());
    assert!(f3.deselections.is_empty());

    // Frame 4: no hit.
    let f4 = run_frame(&bodies, None, f3.state);
    assert!(f4.selections.is_empty());
    assert_eq!(f4.deselections, vec![DeselectionEvent(b)]);
    assert!(!f4.state.current.is_valid());
    assert!(!f4.state.current_redirected.is_valid());
    assert!(!f4.state.previous.is_valid());
    assert!(!f4.state.previous_redirected.is_valid());
}

#[test]
fn notifications_append_to_existing_queues() {
    let bodies = vec![plain(1), plain(2)];
    let mut state = SelectionState::new();
    let mut deselections: Vec<DeselectionEvent> = Vec::new();
    let mut selections: Vec<SelectionEvent> = Vec::new();
    selection_raycast_update(&bodies, Some(BodyId::new(1)), &mut state, &mut deselections, &mut selections);
    selection_raycast_update(&bodies, Some(BodyId::new(2)), &mut state, &mut deselections, &mut selections);
    assert_eq!(
        selections,
        vec![SelectionEvent(BodyId::new(1)), SelectionEvent(BodyId::new(2))]
    );
    assert_eq!(deselections, vec![DeselectionEvent(BodyId::new(1))]);
}

#[test]
fn new_state_is_all_invalid() {
    let s = SelectionState::new();
    assert!(!s.current.is_valid());
    assert!(!s.current_redirected.is_valid());
    assert!(!s.previous.is_valid());
    assert!(!s.previous_redirected.is_valid());
}

#[test]
fn body_id_validity() {
    let a = BodyId::new(0);
    assert!(a.is_valid());
    let mut b = BodyId::new(42);
    assert!(b.is_valid());
    b.invalidate();
    assert!(!b.is_valid());
    assert_eq!(b, BodyId::invalid());
    assert!(!BodyId::invalid().is_valid());
}
