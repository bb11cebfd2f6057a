//! What the handlers ask of the node that runs them.
use vstd::prelude::*;
use crate::time::Duration;

verus! {

/// One thing that a handler asks of the node.
#[derive(Debug)]
pub enum Action {
    /// Publish `payload` on `subject`.
    Publish { subject: u16, payload: Vec<u8> },
    /// Answer the request that is being handled.
    Respond { payload: Vec<u8> },
    /// Have the device identify itself for this long.
    Identify(Duration),
    /// Reset the device in this mode, once the main loop comes to it.
    Reset(u8),
}

/// Model of an [`Action`].
pub enum ActionModel {
    Publish { subject: u16, payload: Seq<u8> },
    Respond { payload: Seq<u8> },
    Identify(int),
    Reset(u8),
}

impl View for Action {
    type V = ActionModel;

    open spec fn view(&self) -> ActionModel {
        match *self {
            Action::Publish { subject, payload } => ActionModel::Publish {
                subject,
                payload: payload@,
            },
            Action::Respond { payload } => ActionModel::Respond { payload: payload@ },
            Action::Identify(d) => ActionModel::Identify(d.ticks as int),
            Action::Reset(mode) => ActionModel::Reset(mode),
        }
    }
}

/// The actions asked for, in order.
#[derive(Debug)]
pub struct Outbox {
    pub actions: Vec<Action>,
}

impl View for Outbox {
    type V = Seq<ActionModel>;

    open spec fn view(&self) -> Seq<ActionModel> {
        self.actions@.map_values(|a: Action| a@)
    }
}

impl Outbox {
    /// An outbox without actions.
    pub fn new() -> (o: Outbox)
        ensures
            o@ == Seq::<ActionModel>::empty(),
    {
        let o = Outbox { actions: Vec::new() };
        proof {
            assert(o@ =~= Seq::<ActionModel>::empty());
        }
        o
    }

    /// Asks for one more action.
    pub fn push(&mut self, action: Action)
        ensures
            final(self)@ == old(self)@.push(action@),
            final(self).actions@ == old(self).actions@.push(action),
    {
        self.actions.push(action);
        proof {
            assert(self@ =~= old(self)@.push(action@));
        }
    }
}

/// An outbox shows its actions one for one and in order, and each with its contents.
pub proof fn law_outbox_shows_its_actions(outbox: Outbox, i: int)
    requires
        0 <= i < outbox.actions@.len(),
    ensures
        outbox@.len() == outbox.actions@.len(),
        match outbox.actions@[i] {
            Action::Publish { subject, payload } => outbox@[i] == (ActionModel::Publish {
                subject,
                payload: payload@,
            }),
            Action::Respond { payload } => outbox@[i] == (ActionModel::Respond {
                payload: payload@,
            }),
            Action::Identify(d) => outbox@[i] == ActionModel::Identify(d.ticks as int),
            Action::Reset(mode) => outbox@[i] == ActionModel::Reset(mode),
        },
{
}

} // verus!
