//! Conversion of borrowed or owned values into a `Cow`, so that the build
//! description can take either.
use vstd::prelude::*;
use std::borrow::Cow;
use std::path::{Path, PathBuf};

verus! {

#[verifier::external_type_specification]
#[verifier::external_body]
pub struct ExPath(Path);

#[verifier::external_type_specification]
#[verifier::external_body]
pub struct ExPathBuf(PathBuf);

/// `Path::new`: a path over the same text; nothing is claimed of it.
#[verifier::external_body]
fn path_of_str(s: &str) -> &Path {
    Path::new(s)
}

/// A value that can stand as a `Cow` of `T`: borrowed where it is a
/// reference, owned where it is a value.
pub trait ToCow<'a, T> where T: ToOwned + ?Sized {
    /// `r` is this value as a `Cow`.
    spec fn is_cow_of(self, r: Cow<'a, T>) -> bool;

    fn to_cow(self) -> (r: Cow<'a, T>)
        ensures
            self.is_cow_of(r),
    ;
}

impl<'a, T> ToCow<'a, T> for Cow<'a, T> where T: ToOwned + ?Sized {
    open spec fn is_cow_of(self, r: Cow<'a, T>) -> bool {
        r == self
    }

    /// The same `Cow`.
    fn to_cow(self) -> Cow<'a, T>
    {
        self
    }
}

impl<'a, T> ToCow<'a, T> for &'a T where T: ToOwned + ?Sized {
    open spec fn is_cow_of(self, r: Cow<'a, T>) -> bool {
        r == Cow::<'a, T>::Borrowed(self)
    }

    /// The reference, borrowed.
    fn to_cow(self) -> Cow<'a, T>
    {
        Cow::Borrowed(self)
    }
}

impl<'a, T> ToCow<'a, T> for T where T: Clone {
    open spec fn is_cow_of(self, r: Cow<'a, T>) -> bool {
        r == Cow::<'a, T>::Owned(self)
    }

    /// The value, owned.
    fn to_cow(self) -> Cow<'a, T>
    {
        Cow::Owned(self)
    }
}

impl<'a> ToCow<'a, Path> for &'a str {
    open spec fn is_cow_of(self, r: Cow<'a, Path>) -> bool {
        r is Borrowed
    }

    /// A borrowed path over the text.
    fn to_cow(self) -> Cow<'a, Path>
    {
        Cow::Borrowed(path_of_str(self))
    }
}

impl<'a> ToCow<'a, Path> for PathBuf {
    open spec fn is_cow_of(self, r: Cow<'a, Path>) -> bool {
        r == Cow::<'a, Path>::Owned(self)
    }

    /// The path, owned.
    fn to_cow(self) -> Cow<'a, Path>
    {
        Cow::Owned(self)
    }
}

} // verus!
