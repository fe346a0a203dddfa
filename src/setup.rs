//! What an inner handler returns once it has taken over a stream, and how
//! the listener's proxy provider override is passed on to it.

use vstd::prelude::*;

use crate::target::NoneOrOne;

verus! {

/// The outcome of an inner handler's setup: where its traffic goes and how.
/// `S` is the stream, `L` a remote location, `P` a proxy provider.
pub enum TcpServerSetupResult<S, L, P> {
    TcpForward {
        remote_location: L,
        stream: S,
        need_initial_flush: bool,
        /// What to write to the stream once the remote connection succeeds.
        connection_success_response: Option<Vec<u8>>,
        /// What to send to the remote location first.
        initial_remote_data: Option<Vec<u8>>,
        override_proxy_provider: NoneOrOne<P>,
    },
    MultiDirectionalUdp {
        need_initial_flush: bool,
        stream: S,
        override_proxy_provider: NoneOrOne<P>,
        num_sockets: usize,
    },
}

impl<S, L, P> TcpServerSetupResult<S, L, P> {
    pub open spec fn spec_need_initial_flush(&self) -> bool {
        match self {
            TcpServerSetupResult::TcpForward { need_initial_flush, .. } => *need_initial_flush,
            TcpServerSetupResult::MultiDirectionalUdp { need_initial_flush, .. } => *need_initial_flush,
        }
    }

    pub open spec fn spec_override_proxy_provider(&self) -> NoneOrOne<P> {
        match self {
            TcpServerSetupResult::TcpForward { override_proxy_provider, .. } => *override_proxy_provider,
            TcpServerSetupResult::MultiDirectionalUdp { override_proxy_provider, .. } => *override_proxy_provider,
        }
    }

    /// The same result with its flush flag set to `flag`.
    pub open spec fn with_need_initial_flush(self, flag: bool) -> Self {
        match self {
            TcpServerSetupResult::TcpForward {
                remote_location,
                stream,
                need_initial_flush,
                connection_success_response,
                initial_remote_data,
                override_proxy_provider,
            } => TcpServerSetupResult::TcpForward {
                remote_location,
                stream,
                need_initial_flush: flag,
                connection_success_response,
                initial_remote_data,
                override_proxy_provider,
            },
            TcpServerSetupResult::MultiDirectionalUdp {
                need_initial_flush,
                stream,
                override_proxy_provider,
                num_sockets,
            } => TcpServerSetupResult::MultiDirectionalUdp {
                need_initial_flush: flag,
                stream,
                override_proxy_provider,
                num_sockets,
            },
        }
    }

    /// The same result with its proxy provider override set to `provider`.
    pub open spec fn with_override_proxy_provider(self, provider: NoneOrOne<P>) -> Self {
        match self {
            TcpServerSetupResult::TcpForward {
                remote_location,
                stream,
                need_initial_flush,
                connection_success_response,
                initial_remote_data,
                override_proxy_provider,
            } => TcpServerSetupResult::TcpForward {
                remote_location,
                stream,
                need_initial_flush,
                connection_success_response,
                initial_remote_data,
                override_proxy_provider: provider,
            },
            TcpServerSetupResult::MultiDirectionalUdp {
                need_initial_flush,
                stream,
                override_proxy_provider,
                num_sockets,
            } => TcpServerSetupResult::MultiDirectionalUdp {
                need_initial_flush,
                stream,
                override_proxy_provider: provider,
                num_sockets,
            },
        }
    }

    pub fn set_need_initial_flush(&mut self, need_initial_flush: bool)
        ensures
            *final(self) == old(self).with_need_initial_flush(need_initial_flush),
    {
        match self {
            TcpServerSetupResult::TcpForward { need_initial_flush: flush, .. } => {
                *flush = need_initial_flush;
            },
            TcpServerSetupResult::MultiDirectionalUdp { need_initial_flush: flush, .. } => {
                *flush = need_initial_flush;
            },
        }
    }

    pub fn override_proxy_provider_unspecified(&self) -> (r: bool)
        ensures
            r == (self.spec_override_proxy_provider() is Unspecified),
    {
        match self {
            TcpServerSetupResult::TcpForward { override_proxy_provider, .. } => {
                override_proxy_provider.is_unspecified()
            },
            TcpServerSetupResult::MultiDirectionalUdp { override_proxy_provider, .. } => {
                override_proxy_provider.is_unspecified()
            },
        }
    }

    pub fn set_override_proxy_provider(&mut self, override_proxy_provider: NoneOrOne<P>)
        ensures
            *final(self) == old(self).with_override_proxy_provider(override_proxy_provider),
    {
        match self {
            TcpServerSetupResult::TcpForward { override_proxy_provider: provider, .. } => {
                *provider = override_proxy_provider;
            },
            TcpServerSetupResult::MultiDirectionalUdp { override_proxy_provider: provider, .. } => {
                *provider = override_proxy_provider;
            },
        }
    }

    /// Passes the listener's override on: the result takes `target` only
    /// when it left its own choice open and the listener made one; every
    /// other field stays.
    pub fn inherit_proxy_provider(&mut self, target: NoneOrOne<P>)
        ensures
            old(self).spec_override_proxy_provider() is Unspecified && !(target is Unspecified)
                ==> *final(self) == old(self).with_override_proxy_provider(target),
            !(old(self).spec_override_proxy_provider() is Unspecified && !(target is Unspecified))
                ==> *final(self) == *old(self),
    {
        if self.override_proxy_provider_unspecified() && !target.is_unspecified() {
            self.set_override_proxy_provider(target);
        }
    }
}

} // verus!
