//! The renderer of the level editor. It draws nothing yet.

use vstd::prelude::*;
use crate::logic::edit::EditLogic;
use crate::renderer::DrawCommand;

verus! {

pub struct EditRenderer {}

impl EditRenderer {
    pub fn new(logic: &EditLogic) -> (renderer: Self)
        ensures
            renderer == (EditRenderer {  }),
    {
        return Self {  };
    }

    /// Looks at the screen's logic and takes nothing over.
    pub fn update(&mut self, logic: &EditLogic)
        ensures
            *final(self) == *old(self),
    {
    }

    /// Takes the new size of the surface and keeps nothing of it.
    pub fn process_resize(&mut self, size: (u32, u32))
        ensures
            *final(self) == *old(self),
    {
    }

    /// The commands that draw the screen: none.
    pub fn render(&self) -> (commands: Vec<DrawCommand>)
        ensures
            commands@ == Seq::<DrawCommand>::empty(),
    {
        return Vec::new();
    }
}

} // verus!
