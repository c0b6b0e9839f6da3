//! Interactive object picking for a real-time 3D scene viewer.
//!
//! Once per frame the host scene feeds this library the most recent pointer
//! movements and the nearest raycast intersection; the library tracks which
//! single body is under the pointer, resolves redirect indirection (a proxy
//! pickable may stand for a different logical body), and emits selection and
//! deselection notifications that drive the host's highlight rendering.

pub mod body;
pub mod cursor;
pub mod highlight;
pub mod selection;
