//! A GUI object together with the name it was found by.
use vstd::prelude::*;

verus! {

/// A GUI object together with the name it was found by.
pub struct GuiElement<T> {
    object: T,
    name: &'static str,
}

impl<T> GuiElement<T> {
    /// The object found by `name`.
    pub fn new(object: T, name: &'static str) -> (element: Self)
        ensures
            element.objectView() == object,
            element.nameView() == name@,
    {
        GuiElement { object, name }
    }

    /// The object held.
    pub closed spec fn objectView(&self) -> T {
        self.object
    }

    /// The name held.
    pub closed spec fn nameView(&self) -> Seq<char> {
        self.name@
    }

    /// The name the object was found by.
    pub fn name(&self) -> (name: &str)
        ensures
            name@ == self.nameView(),
    {
        self.name
    }

    /// The object.
    pub fn object(&self) -> (object: &T)
        ensures
            *object == self.objectView(),
    {
        &self.object
    }
}

} // verus!
