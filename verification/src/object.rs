//! The kinds of objects that a server has.

use vstd::prelude::*;

verus! {

/// The interface of an object.
#[derive(Clone, Copy, Debug, PartialEq, Eq, Structural)]
pub enum ObjectType {
    Node,
    Link,
    Port,
    /// Any other interface.
    Other,
}

} // verus!
