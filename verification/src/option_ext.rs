//! An extension trait for in-place replacement inside an `Option`.

use vstd::prelude::*;

verus! {

/// In-place replacement of an `Option`'s contents, only when it holds one.
///
/// Unlike the inherent replacement on `Option`, these methods leave a
/// `None` untouched: a fresh value is stored (or computed and stored) only
/// when a value was already present, and the previous contents are handed
/// back either way.
pub trait OptionMutExt<T> {
    /// The option the receiver stands for.
    spec fn stored(&self) -> Option<T>;

    /// Store `val` if a value is present; return the previous contents.
    fn replace(&mut self, val: T) -> (r: Option<T>)
        ensures
            r == old(self).stored(),
            old(self).stored() is Some ==> final(self).stored() == Some(val),
            old(self).stored() is None ==> final(self).stored() is None,
    ;

    /// Store the result of calling `f` if a value is present (`f` is not
    /// called otherwise); return the previous contents.
    fn replace_with<F: FnOnce() -> T>(&mut self, f: F) -> (r: Option<T>)
        requires
            old(self).stored() is Some ==> call_requires(f, ()),
        ensures
            r == old(self).stored(),
            old(self).stored() is None ==> final(self).stored() is None,
            old(self).stored() is Some ==> exists|v: T|
                call_ensures(f, (), v) && final(self).stored() == Some(v),
    ;
}

impl<T> OptionMutExt<T> for Option<T> {
    open spec fn stored(&self) -> Option<T> {
        *self
    }

    fn replace(&mut self, val: T) -> (r: Option<T>) {
        let produce = move || -> (v: T)
            ensures
                v == val,
            { val };
        self.replace_with(produce)
    }

    fn replace_with<F: FnOnce() -> T>(&mut self, f: F) -> (r: Option<T>) {
        if self.is_some() {
            let result = self.take();
            *self = Some(f());
            result
        } else {
            None
        }
    }
}

} // verus!
