//! Actors, the contexts they live in, and what they can be sent.

use crate::address::Address;
use vstd::prelude::*;

verus! {

/// Something that lives in a context and is reached through its addresses.
pub trait Actor: Sized {

}

/// Something that can be sent to an actor.
pub trait Message {

}

/// An actor that can be told the address of another one.
pub trait Bind<OA: Actor + 'static>: Actor {
    fn on_bind(&self, address: &Address<OA>);
}

/// An actor that takes messages without an answer.
pub trait NotificationHandler<M>: Actor {
    fn on_notification(&self, message: M);
}

/// An actor that answers messages.
pub trait RequestHandler<M>: Actor {
    type Response;

    fn on_request(&self, message: M) -> Self::Response;
}

/// Somewhere to send messages to, whoever takes them.
pub trait Sink<M> {
    fn notify(&self, message: M);
}

/// The place an actor lives in.
pub struct ActorContext<A: Actor> {
    actor: A,
}

impl<A: Actor> ActorContext<A> {
    /// The actor that lives here.
    pub closed spec fn actor(&self) -> &A {
        &self.actor
    }

    /// A context for an actor.
    pub fn new(actor: A) -> (context: ActorContext<A>)
        ensures
            *context.actor() == actor,
    {
        ActorContext { actor }
    }

    /// Tells the actor the address of another one.
    pub fn bind<OA: Actor + 'static>(&self, address: &Address<OA>) where A: Bind<OA>
        ensures
            call_ensures(<A as Bind<OA>>::on_bind, (self.actor(), address), ()),
    {
        self.actor.on_bind(address)
    }

    /// Has the actor take a message.
    pub fn notify<M>(&self, message: M) where A: NotificationHandler<M>
        ensures
            call_ensures(
                <A as NotificationHandler<M>>::on_notification,
                (self.actor(), message),
                (),
            ),
    {
        self.actor.on_notification(message)
    }

    /// Has the actor answer a message.
    pub fn request<M>(&self, message: M) -> (response: <A as RequestHandler<M>>::Response) where
        A: RequestHandler<M>,

        ensures
            call_ensures(
                <A as RequestHandler<M>>::on_request,
                (self.actor(), message),
                response,
            ),
    {
        self.actor.on_request(message)
    }
}

} // verus!
