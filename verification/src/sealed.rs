//! Values on their way between threads.
use vstd::prelude::*;
use crate::weechat::Weechat;

verus! {

/// A value of the main thread, wrapped to be carried to another thread and
/// back. Nothing can be done with it but to unseal it, and that takes a
/// reference to the [`Weechat`] handle, which only code on the main thread
/// has.
///
/// The wrapper checks nothing itself. It does not keep the unsealed value on
/// the main thread afterwards, and it does not bring a value that is dropped
/// unredeemed back to the main thread for its cleanup. By itself it crosses
/// threads only if its content may: that it may whatever it holds is for the
/// embedding to declare, which alone can see to it that values are sealed and
/// unsealed on the main thread.
pub struct Sealed<T>(T);

impl<T> View for Sealed<T> {
    type V = T;

    closed spec fn view(&self) -> T {
        self.0
    }
}

impl<T> Sealed<T> {
    /// The sealed form of `value`.
    pub closed spec fn sealing(value: T) -> Sealed<T> {
        Sealed(value)
    }

    /// Seals a value.
    pub fn seal(value: T) -> (sealed: Sealed<T>)
        ensures
            sealed == Self::sealing(value),
            sealed@ == value,
    {
        Sealed(value)
    }

    /// Unseals the value. The handle is not used: it is the token that shows
    /// that the call is made on the main thread.
    pub fn unseal(self, _weechat: &Weechat) -> (value: T)
        ensures
            value == self@,
    {
        self.0
    }
}

/// What was sealed comes out unchanged: the sealed form of any value holds
/// that value, which is what unsealing returns, whatever the handle.
pub proof fn lemma_seal_unseal<T>(value: T)
    ensures
        Sealed::sealing(value)@ == value,
{
}

} // verus!
