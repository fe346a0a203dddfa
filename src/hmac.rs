//! Rolling HMAC-SHA1 contexts truncated to 4-byte tags.

use vstd::prelude::*;

use crate::foreign::{
    context_key, context_message, hmac_context_clone, hmac_context_sign, hmac_context_update,
    hmac_sha1, hmac_sha1_context,
};

verus! {

/// The 4-byte tag of `message` under `key`: the first four bytes of its
/// HMAC-SHA1.
pub open spec fn tag_of(key: Seq<u8>, message: Seq<u8>) -> Seq<u8> {
    Seq::new(4, |i: int| hmac_sha1(key, message)[i])
}

/// An HMAC-SHA1 context that can be forked, fed, and asked for the tag of
/// what it has been fed so far.
pub struct ShadowTlsHmac {
    context: aws_lc_rs::hmac::Context,
}

impl ShadowTlsHmac {
    /// The key of the context.
    pub closed spec fn key(&self) -> Seq<u8> {
        context_key(self.context)
    }

    /// Everything fed into the context since it was created.
    pub closed spec fn message(&self) -> Seq<u8> {
        context_message(self.context)
    }

    /// A context keyed with `key` that has been fed nothing.
    pub fn new(key: &[u8]) -> (r: Self)
        ensures
            r.key() == key@,
            r.message() == Seq::<u8>::empty(),
    {
        ShadowTlsHmac { context: hmac_sha1_context(key) }
    }

    /// A fork of this context: same key, same bytes fed.
    pub fn fork(&self) -> (r: Self)
        ensures
            r.key() == self.key(),
            r.message() == self.message(),
    {
        ShadowTlsHmac { context: hmac_context_clone(&self.context) }
    }

    /// Feeds `data` into the context.
    pub fn update(&mut self, data: &[u8])
        ensures
            final(self).key() == old(self).key(),
            final(self).message() == old(self).message() + data@,
    {
        hmac_context_update(&mut self.context, data);
    }

    /// The tag of what has been fed so far; the context is left as it is.
    pub fn digest(&self) -> (r: [u8; 4])
        ensures
            r@ == tag_of(self.key(), self.message()),
    {
        let c = hmac_context_clone(&self.context);
        let full = hmac_context_sign(c);
        let r = [full[0], full[1], full[2], full[3]];
        assert(r@ =~= tag_of(self.key(), self.message()));
        r
    }

    /// The tag of what has been fed so far, consuming the context.
    pub fn finalized_digest(self) -> (r: [u8; 4])
        ensures
            r@ == tag_of(self.key(), self.message()),
    {
        let full = hmac_context_sign(self.context);
        let r = [full[0], full[1], full[2], full[3]];
        assert(r@ =~= tag_of(self.key(), self.message()));
        r
    }
}

} // verus!
