//! Asking for resources on demand.
use crate::resource::{KeyView, ResourceKey};
use crate::state::{DemandEvent, Waiter};
use vstd::prelude::*;

verus! {

/// Lets a task wait until a resource that it asked for has been handled.
pub struct Demanded {
    b: tokio::sync::oneshot::Receiver<()>,
}

impl Demanded {
    /// What the notification arrives on.
    pub closed spec fn receiver(self) -> tokio::sync::oneshot::Receiver<()> {
        self.b
    }

    /// Hands out what the notification arrives on. The resource itself does not arrive there: it
    /// goes to the handler of its type.
    pub fn into_receiver(self) -> (receiver: tokio::sync::oneshot::Receiver<()>)
        ensures
            receiver == self.receiver(),
    {
        self.b
    }
}

/// Asks for resources on demand.
#[derive(Debug)]
pub struct Demander {
    demand: tokio::sync::mpsc::Sender<DemandEvent>,
}

impl Clone for Demander {
    fn clone(&self) -> (copy: Self)
        ensures
            copy == *self,
    {
        Demander { demand: self.demand.clone() }
    }
}

impl Demander {
    /// The queue into which requests are put.
    pub closed spec fn queue(self) -> tokio::sync::mpsc::Sender<DemandEvent> {
        self.demand
    }

    /// Puts requests into the given queue.
    pub fn new(demand: tokio::sync::mpsc::Sender<DemandEvent>) -> (demander: Self)
        ensures
            demander.queue() == demand,
    {
        Demander { demand }
    }

    /// The queue into which requests are put.
    pub fn sender(&self) -> (sender: &tokio::sync::mpsc::Sender<DemandEvent>)
        ensures
            *sender == self.queue(),
    {
        &self.demand
    }

    /// Makes a request for a resource, to be put into the queue, and what lets a task wait for
    /// it.
    pub fn demand(&self, type_url: String, name: String) -> (made: (DemandEvent, Demanded))
        ensures
            call_ensures(
                tokio::sync::oneshot::channel::<()>,
                (),
                (made.0.0, made.1.receiver()),
            ),
            made.0.1@ == (KeyView { type_url: type_url@, name: name@ }),
    {
        let (tx, rx) = tokio::sync::oneshot::channel::<()>();
        Self::demand_with(tx, rx, type_url, name)
    }

    /// Makes a request for a resource with the two halves of a given channel.
    pub fn demand_with(
        tx: Waiter,
        rx: tokio::sync::oneshot::Receiver<()>,
        type_url: String,
        name: String,
    ) -> (made: (DemandEvent, Demanded))
        ensures
            made.0.0 == tx,
            made.0.1@ == (KeyView { type_url: type_url@, name: name@ }),
            made.1.receiver() == rx,
    {
        ((tx, ResourceKey { name, type_url }), Demanded { b: rx })
    }
}

/// A demand names the resource that was asked for, and its two ends come from one new channel.
pub proof fn law_demand_names_its_resource(
    demander: Demander,
    type_url: String,
    name: String,
    made: (DemandEvent, Demanded),
)
    requires
        call_ensures(Demander::demand, (&demander, type_url, name), made),
    ensures
        made.0.1.type_url@ == type_url@,
        made.0.1.name@ == name@,
        call_ensures(tokio::sync::oneshot::channel::<()>, (), (made.0.0, made.1.receiver())),
{
}

} // verus!
