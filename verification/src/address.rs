//! Addresses of actors.

use crate::actor::{Actor, ActorContext, Bind, Message, NotificationHandler, RequestHandler, Sink};
use vstd::prelude::*;

verus! {

/// The address of an actor. Whatever is sent to it goes to the actor in the context that it was
/// made for, and so does what is sent to its clones.
pub struct Address<A: Actor + 'static> {
    actor: &'static ActorContext<A>,
}

impl<A: Actor + 'static> Clone for Address<A> {
    fn clone(&self) -> (address: Self)
        ensures
            address == *self,
    {
        Address { actor: self.actor }
    }
}

impl<A: Actor + 'static> Address<A> {
    /// The context that the address leads to.
    pub closed spec fn context(&self) -> &ActorContext<A> {
        self.actor
    }

    /// The address of the actor in a context.
    pub fn new(actor: &'static ActorContext<A>) -> (address: Self)
        ensures
            address.context() == actor,
    {
        Address { actor }
    }

    /// Tells the actor the address of another one.
    pub fn bind<OA: Actor + 'static>(&self, address: &Address<OA>) where A: Bind<OA>
        ensures
            call_ensures(<A as Bind<OA>>::on_bind, (self.context().actor(), address), ()),
    {
        self.actor.bind(address)
    }

    /// Sends the actor a message.
    pub fn notify<M: Message>(&self, message: M) where A: NotificationHandler<M>
        ensures
            call_ensures(
                <A as NotificationHandler<M>>::on_notification,
                (self.context().actor(), message),
                (),
            ),
    {
        self.actor.notify(message)
    }

    /// Sends the actor a message and returns its answer.
    pub fn request<M: Message>(&self, message: M) -> (response: <A as RequestHandler<
        M,
    >>::Response) where A: RequestHandler<M>
        ensures
            call_ensures(
                <A as RequestHandler<M>>::on_request,
                (self.context().actor(), message),
                response,
            ),
    {
        self.actor.request(message)
    }
}

impl<A: NotificationHandler<M> + 'static, M: Message> Sink<M> for Address<A> {
    /// Sends the actor a message.
    fn notify(&self, message: M)
        ensures
            call_ensures(
                <A as NotificationHandler<M>>::on_notification,
                (self.context().actor(), message),
                (),
            ),
    {
        Address::notify(self, message)
    }
}

} // verus!
