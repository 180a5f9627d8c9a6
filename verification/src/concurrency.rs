//! Several registrations against one table.
//!
//! Nothing in a [`Registration`](crate::registration::Registration) stops two
//! of them from running at once, and two that race for one identity may both
//! be told that it is free. This module models such a race: a world of
//! callers whose pending actions are carried out one at a time, in any order,
//! against one table that refuses a second record for an identity. It proves
//! that the table's refusal alone decides the race: whatever the order,
//! exactly one caller registers and all others are told that the user
//! exists.

use vstd::prelude::*;

use crate::error::AuthError;
use crate::messages::UserView;
use crate::registration::{RegisterActionView, RegisterEventView, RegisterStep, RegistrationView};
use crate::store::{insert_outcome, Credentials, StoredCredential};

verus! {

/// One registration among several: where it stands and what it waits for.
pub struct Caller {
    pub flow: RegistrationView,
    pub action: RegisterActionView,
}

/// One table and the registrations that run against it.
pub struct World {
    pub table: Credentials,
    pub callers: Seq<Caller>,
}

/// One atomic step: the pending action of caller `who` is carried out. `hash`
/// is what hashing gives and `now` what the clock shows, should the action
/// need them.
pub struct Tick {
    pub who: int,
    pub hash: Seq<char>,
    pub now: u64,
}

/// The world before any caller has moved.
pub open spec fn begin(table: Credentials, users: Seq<UserView>) -> World {
    World {
        table,
        callers: Seq::new(
            users.len(),
            |i: int|
                Caller {
                    flow: RegistrationView::start(users[i]).0,
                    action: RegistrationView::start(users[i]).1,
                },
        ),
    }
}

/// The world after one step. The store and the hasher do not fail here; a
/// caller that has its answer, and a caller that does not exist, leave the
/// world as it is.
pub open spec fn perform(world: World, tick: Tick) -> World {
    if 0 <= tick.who < world.callers.len() {
        let caller = world.callers[tick.who];
        match caller.action {
            RegisterActionView::QueryExists { email } => {
                let moved = caller.flow.next(RegisterEventView::Exists(world.table.dom().contains(email)));
                World {
                    table: world.table,
                    callers: world.callers.update(tick.who, Caller { flow: moved.0, action: moved.1 }),
                }
            },
            RegisterActionView::HashPassword { password } => {
                let moved = caller.flow.next(RegisterEventView::Hashed(tick.hash));
                World {
                    table: world.table,
                    callers: world.callers.update(tick.who, Caller { flow: moved.0, action: moved.1 }),
                }
            },
            RegisterActionView::InsertUser { email, password_hash } => {
                let stored = insert_outcome(
                    world.table,
                    email,
                    StoredCredential { password_hash, created_at: tick.now },
                );
                let moved = caller.flow.next(
                    if stored.1 is Ok {
                        RegisterEventView::Inserted
                    } else {
                        RegisterEventView::Duplicate
                    },
                );
                World {
                    table: stored.0,
                    callers: world.callers.update(tick.who, Caller { flow: moved.0, action: moved.1 }),
                }
            },
            RegisterActionView::Finish { result } => world,
        }
    } else {
        world
    }
}

/// The world after a schedule of steps.
pub open spec fn run(world: World, schedule: Seq<Tick>) -> World
    decreases schedule.len(),
{
    if schedule.len() == 0 {
        world
    } else {
        perform(run(world, schedule.drop_last()), schedule.last())
    }
}

/// The caller registered.
pub open spec fn won(caller: Caller) -> bool {
    caller.flow.step is Registered
}

/// The caller was told that the user exists.
pub open spec fn refused(caller: Caller) -> bool {
    caller.flow.step == RegisterStep::Rejected(AuthError::UserAlreadyExists)
}

/// How many callers registered.
pub open spec fn winners(callers: Seq<Caller>) -> nat
    decreases callers.len(),
{
    if callers.len() == 0 {
        0
    } else {
        winners(callers.drop_last()) + if won(callers.last()) {
            1nat
        } else {
            0nat
        }
    }
}

/// How many callers were told that the user exists.
pub open spec fn losers(callers: Seq<Caller>) -> nat
    decreases callers.len(),
{
    if callers.len() == 0 {
        0
    } else {
        losers(callers.drop_last()) + if refused(callers.last()) {
            1nat
        } else {
            0nat
        }
    }
}

/// Every caller has its answer.
pub open spec fn settled(callers: Seq<Caller>) -> bool {
    forall|i: int| 0 <= i < callers.len() ==> (#[trigger] callers[i]).flow.closed()
}

/// What holds of a caller that registers `email`, at every moment of a race.
spec fn caller_inv(caller: Caller, email: Seq<char>, table: Credentials) -> bool {
    &&& caller.flow.user.email == email
    &&& match caller.flow.step {
        RegisterStep::AwaitingExists => caller.action == RegisterActionView::QueryExists { email },
        RegisterStep::AwaitingHash => caller.action is HashPassword,
        RegisterStep::AwaitingInsert => caller.action is InsertUser
            && caller.action->InsertUser_email == email,
        RegisterStep::Registered => caller.action is Finish && table.dom().contains(email),
        RegisterStep::Rejected(error) => {
            &&& caller.action is Finish
            &&& error == AuthError::UserAlreadyExists
            &&& table.dom().contains(email)
        },
    }
}

/// What holds of the world at every moment of a race for `email`.
spec fn world_inv(world: World, email: Seq<char>, initial: Credentials, count: nat) -> bool {
    &&& world.callers.len() == count
    &&& forall|i: int|
        0 <= i < world.callers.len() ==> caller_inv(#[trigger] world.callers[i], email, world.table)
    &&& winners(world.callers) == if world.table.dom().contains(email) {
        1nat
    } else {
        0nat
    }
    &&& world.table.remove(email) == initial
}

proof fn lemma_winners_update(callers: Seq<Caller>, i: int, caller: Caller)
    requires
        0 <= i < callers.len(),
    ensures
        winners(callers.update(i, caller)) + (if won(callers[i]) {
            1nat
        } else {
            0nat
        }) == winners(callers) + (if won(caller) {
            1nat
        } else {
            0nat
        }),
    decreases callers.len(),
{
    if i == callers.len() - 1 {
        assert(callers.update(i, caller).drop_last() =~= callers.drop_last());
    } else {
        lemma_winners_update(callers.drop_last(), i, caller);
        assert(callers.update(i, caller).drop_last() =~= callers.drop_last().update(i, caller));
    }
}

proof fn lemma_none_won_yet(callers: Seq<Caller>)
    requires
        forall|i: int| 0 <= i < callers.len() ==> !won(#[trigger] callers[i]),
    ensures
        winners(callers) == 0,
    decreases callers.len(),
{
    if callers.len() > 0 {
        lemma_none_won_yet(callers.drop_last());
    }
}

proof fn lemma_everyone_counted(callers: Seq<Caller>)
    requires
        forall|i: int| 0 <= i < callers.len() ==> won(#[trigger] callers[i]) || refused(callers[i]),
    ensures
        winners(callers) + losers(callers) == callers.len(),
    decreases callers.len(),
{
    if callers.len() > 0 {
        lemma_everyone_counted(callers.drop_last());
    }
}

proof fn lemma_step_keeps_inv(world: World, tick: Tick, email: Seq<char>, initial: Credentials, count: nat)
    requires
        world_inv(world, email, initial, count),
    ensures
        world_inv(perform(world, tick), email, initial, count),
{
    let after = perform(world, tick);
    if 0 <= tick.who < world.callers.len() {
        let caller = world.callers[tick.who];
        if !(caller.action is Finish) {
            let moved = after.callers[tick.who];
            lemma_winners_update(world.callers, tick.who, moved);
            assert(after.table.remove(email) =~= initial);
            assert forall|i: int| 0 <= i < after.callers.len() implies caller_inv(
                #[trigger] after.callers[i],
                email,
                after.table,
            ) by {}
        }
    }
}

proof fn lemma_run_keeps_inv(world: World, schedule: Seq<Tick>, email: Seq<char>, initial: Credentials, count: nat)
    requires
        world_inv(world, email, initial, count),
    ensures
        world_inv(run(world, schedule), email, initial, count),
    decreases schedule.len(),
{
    if schedule.len() > 0 {
        lemma_run_keeps_inv(world, schedule.drop_last(), email, initial, count);
        lemma_step_keeps_inv(run(world, schedule.drop_last()), schedule.last(), email, initial, count);
    }
}

/// Registrations of one free identity that race against one table: whatever
/// the order of their steps, at most one of them registers, and it has
/// registered exactly when the table holds the identity; no other record of
/// the table is touched; and once all of them have their answer, exactly one
/// has registered and every other one was told that the user exists.
pub proof fn lemma_one_registration_wins(
    table: Credentials,
    users: Seq<UserView>,
    email: Seq<char>,
    schedule: Seq<Tick>,
)
    requires
        !table.dom().contains(email),
        forall|i: int| 0 <= i < users.len() ==> (#[trigger] users[i]).email == email,
    ensures
        ({
            let world = run(begin(table, users), schedule);
            &&& world.callers.len() == users.len()
            &&& winners(world.callers) <= 1
            &&& winners(world.callers) == 1 <==> world.table.dom().contains(email)
            &&& world.table.remove(email) == table
            &&& settled(world.callers) && users.len() > 0 ==> {
                &&& winners(world.callers) == 1
                &&& losers(world.callers) == users.len() - 1
            }
        }),
{
    let first = begin(table, users);
    assert(world_inv(first, email, table, users.len())) by {
        assert forall|i: int| 0 <= i < first.callers.len() implies !won(#[trigger] first.callers[i]) by {}
        lemma_none_won_yet(first.callers);
        assert(first.table.remove(email) =~= table);
        assert forall|i: int| 0 <= i < first.callers.len() implies caller_inv(
            #[trigger] first.callers[i],
            email,
            first.table,
        ) by {}
    }
    lemma_run_keeps_inv(first, schedule, email, table, users.len());
    let world = run(first, schedule);
    if settled(world.callers) && users.len() > 0 {
        assert forall|i: int| 0 <= i < world.callers.len() implies won(#[trigger] world.callers[i])
            || refused(world.callers[i]) by {}
        lemma_everyone_counted(world.callers);
    }
}

} // verus!
