//! Persistent channel selection.
use crate::channel::{effective_name, Channel};
use crate::error::Result;
use vstd::prelude::*;

verus! {

/// Adapt the consumer's persisted configuration to update channels.
pub trait Store {
    /// Read the stored channel; empty values are treated as stable by the updater.
    fn channel(&self) -> Result<Channel>;

    /// Persist a selected channel.
    fn set_channel(&mut self, channel: Channel) -> Result<()>;
}

impl<T: Store + ?Sized> Store for &mut T {
    fn channel(&self) -> (r: Result<Channel>)
        ensures
            call_ensures(T::channel, (&*old(*self),), r),
    {
        (**self).channel()
    }

    fn set_channel(&mut self, channel: Channel) -> (r: Result<()>)
        ensures
            exists|m: &mut T| #[trigger] call_ensures(T::set_channel, (m, channel), r),
    {
        (**self).set_channel(channel)
    }
}

impl<T: Store + ?Sized> Store for Box<T> {
    fn channel(&self) -> (r: Result<Channel>)
        ensures
            call_ensures(T::channel, (&**self,), r),
    {
        (**self).channel()
    }

    fn set_channel(&mut self, channel: Channel) -> (r: Result<()>)
        ensures
            exists|m: &mut T| #[trigger] call_ensures(T::set_channel, (m, channel), r),
    {
        let inner: &mut T = &mut **self;
        T::set_channel(inner, channel)
    }
}

/// In-memory storage. An empty channel reads as stable.
#[derive(Debug, Default)]
pub struct MemStore {
    /// Current in-memory value.
    pub current: Channel,
}

impl Store for MemStore {
    fn channel(&self) -> (r: Result<Channel>)
        ensures
            r matches Ok(c) && c@ == effective_name(self.current@),
    {
        if self.current.as_str().is_empty() {
            Ok(Channel::stable())
        } else {
            Ok(self.current.clone())
        }
    }

    fn set_channel(&mut self, channel: Channel) -> (r: Result<()>)
        ensures
            r is Ok,
            final(self).current@ == channel@,
    {
        self.current = channel;
        Ok(())
    }
}

} // verus!
