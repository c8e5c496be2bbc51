//! Setting up a device: the choice of the queue family.

use vstd::prelude::*;

verus! {

/// What choosing a queue family needs to know of one.
#[derive(Clone, Copy, Debug, PartialEq, Eq, Structural)]
pub struct QueueFamilyInfo {
    /// Whether the family takes graphics commands.
    pub supports_graphics: bool,
    /// Whether the family can present to the surface of the window.
    pub supports_surface: bool,
}

impl QueueFamilyInfo {
    /// Whether the family can draw to the window.
    pub open spec fn suitable(&self) -> bool {
        self.supports_graphics && self.supports_surface
    }
}

/// Whether `chosen` is the first suitable family among `families`, or `None`
/// where no family is suitable.
pub open spec fn is_first_suitable(families: Seq<QueueFamilyInfo>, chosen: Option<usize>) -> bool {
    match chosen {
        Some(i) => {
            &&& i < families.len()
            &&& families[i as int].suitable()
            &&& forall|j: int| 0 <= j < i ==> !(#[trigger] families[j]).suitable()
        },
        None => forall|j: int| 0 <= j < families.len() ==> !(#[trigger] families[j]).suitable(),
    }
}

/// Chooses the queue family to draw with: the first that takes graphics
/// commands and can present to the surface.
pub fn choose_queue_family(families: &Vec<QueueFamilyInfo>) -> (chosen: Option<usize>)
    ensures
        is_first_suitable(families@, chosen),
{
    let mut i: usize = 0;
    while i < families.len()
        invariant
            i <= families.len(),
            forall|j: int| 0 <= j < i ==> !(#[trigger] families[j]).suitable(),
        decreases families.len() - i,
    {
        if families[i].supports_graphics && families[i].supports_surface {
            return Some(i);
        }
        i += 1;
    }
    None
}

} // verus!
