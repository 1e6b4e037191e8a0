//! Window classes, by name.

use vstd::prelude::*;

verus! {

/// The class of a window, named by its registered class name.
///
/// The `T` parameter is the type of the window-specific data. A class that
/// this library registered owns its registration, which is undone when the
/// class is dropped; a class looked up by name owns nothing.
pub struct WindowClass<T> {
    name: String,
    owns_registration: bool,
    data: std::marker::PhantomData<T>,
}

impl WindowClass<()> {
    /// A class that is already registered under `name`, such as one of the
    /// system's.
    pub fn from_name(name: &str) -> (r: Self)
        ensures
            r.name_spec() == name@,
            !r.owns_registration_spec(),
    {
        WindowClass { name: name.to_owned(), owns_registration: false, data: std::marker::PhantomData }
    }
}

impl<T> WindowClass<T> {
    /// The class's name.
    pub closed spec fn name_spec(&self) -> Seq<char> {
        self.name@
    }

    /// Whether dropping the class must undo its registration.
    pub closed spec fn owns_registration_spec(&self) -> bool {
        self.owns_registration
    }

    /// A class that was just registered under `name`, and whose registration
    /// this value now owns.
    pub fn registered(name: &str) -> (r: Self)
        ensures
            r.name_spec() == name@,
            r.owns_registration_spec(),
    {
        WindowClass { name: name.to_owned(), owns_registration: true, data: std::marker::PhantomData }
    }

    /// The class's name.
    pub fn name(&self) -> (r: &str)
        ensures
            r@ == self.name_spec(),
    {
        self.name.as_str()
    }

    /// Whether dropping the class must undo its registration.
    pub fn owns_registration(&self) -> (r: bool)
        ensures
            r == self.owns_registration_spec(),
    {
        self.owns_registration
    }
}

} // verus!
