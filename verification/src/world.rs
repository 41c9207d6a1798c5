//! The two surroundings in which the modification's state is worked on.
//!
//! A [`World`] is the state together with the five objects of the game that
//! first-person logic needs, all of them present: it exists only while a
//! character is loaded into a world. A [`Void`] is the state alone, for logic
//! that has to run whether or not there is a world. Either holds the state
//! through a shared reference, to look at, or through a mutable one, to work
//! on; those that work on it lend the state out through [`WorldState`]. The
//! library looks nothing up in the game itself: the caller hands the objects
//! in, each as an `Option`.

use vstd::prelude::*;

verus! {

/// A part that can be had out of a state of the world, where it is there.
pub trait FromWorld<S>: Sized {
    fn from_world(state: S) -> Option<Self>;
}

/// A surrounding that wraps the state of the modification.
pub trait WorldState: Sized {
    /// The state of the modification.
    type State;

    /// The state as it is now.
    spec fn view(&self) -> Self::State;

    /// The state, to read.
    fn state(&self) -> (state: &Self::State)
        ensures
            *state == self@,
    ;

    /// The state, to change: what the caller leaves behind the reference is
    /// the state from then on.
    fn state_mut(&mut self) -> (state: &mut Self::State)
        ensures
            *state == old(self)@,
            final(self)@ == *final(state),
    ;

    /// The part `T` of these surroundings, where it is there: what `T` itself
    /// makes of them.
    fn get<'a, T>(&'a self) -> (part: Option<T>) where T: FromWorld<&'a Self>
        ensures
            call_ensures(T::from_world, (self,), part),
    {
        T::from_world(self)
    }

    /// The part `T` of these surroundings, to change, where it is there: what
    /// `T` itself makes of them.
    fn get_mut<'a, T>(&'a mut self) -> (part: Option<T>) where T: FromWorld<&'a mut Self>
        ensures
            exists|this: &mut Self|
                *this == *old(self) && *final(this) == *final(self) && #[trigger] call_ensures(
                    T::from_world,
                    (this,),
                    part,
                ),
    {
        T::from_world(self)
    }
}

/// The state of the modification and the objects of a loaded world: the
/// camera, the character camera, the cutscene player, the lock-on target
/// manager and the player. The state is held through `H`, a shared
/// reference to it where the world is only looked at, a mutable one where it
/// is worked on.
pub struct World<H, Cam, ChrCam, Remo, LockTgt, Player> {
    pub cs_cam: Cam,
    pub chr_cam: ChrCam,
    pub cs_remo: Remo,
    pub lock_tgt: LockTgt,
    pub player: Player,
    pub state: H,
}

/// The state of the modification alone, held through `H` as a [`World`]
/// holds it.
pub struct Void<H> {
    pub state: H,
}

/// All five objects of a world are there.
pub open spec fn all_there<Cam, ChrCam, Remo, LockTgt, Player>(
    cs_cam: Option<Cam>,
    chr_cam: Option<ChrCam>,
    cs_remo: Option<Remo>,
    lock_tgt: Option<LockTgt>,
    player: Option<Player>,
) -> bool {
    cs_cam.is_some() && chr_cam.is_some() && cs_remo.is_some() && lock_tgt.is_some()
        && player.is_some()
}

impl<H, Cam, ChrCam, Remo, LockTgt, Player> World<H, Cam, ChrCam, Remo, LockTgt, Player> {
    /// The world holds exactly these five objects.
    pub open spec fn holds(
        self,
        cs_cam: Option<Cam>,
        chr_cam: Option<ChrCam>,
        cs_remo: Option<Remo>,
        lock_tgt: Option<LockTgt>,
        player: Option<Player>,
    ) -> bool {
        &&& cs_cam == Some(self.cs_cam)
        &&& chr_cam == Some(self.chr_cam)
        &&& cs_remo == Some(self.cs_remo)
        &&& lock_tgt == Some(self.lock_tgt)
        &&& player == Some(self.player)
    }
}

impl<'s, S, Cam, ChrCam, Remo, LockTgt, Player> World<&'s S, Cam, ChrCam, Remo, LockTgt, Player> {
    /// Runs `f` on the world that the five objects make with `state`, to
    /// look at, if all five are there, and hands back what it returns. If one
    /// is missing there is no world: `f` is not run and the result is `None`.
    pub fn in_world<R, F>(
        state: &'s S,
        cs_cam: Option<Cam>,
        chr_cam: Option<ChrCam>,
        cs_remo: Option<Remo>,
        lock_tgt: Option<LockTgt>,
        player: Option<Player>,
        f: F,
    ) -> (ret: Option<R>) where F: FnOnce(&World<&'s S, Cam, ChrCam, Remo, LockTgt, Player>) -> R
        requires
            forall|world: &World<&'s S, Cam, ChrCam, Remo, LockTgt, Player>|
                world.state == state && world.holds(cs_cam, chr_cam, cs_remo, lock_tgt, player)
                    ==> #[trigger] f.requires((world,)),
        ensures
            ret.is_some() == all_there(cs_cam, chr_cam, cs_remo, lock_tgt, player),
            ret is Some ==> exists|world: &World<&'s S, Cam, ChrCam, Remo, LockTgt, Player>, r: R|
                {
                    &&& ret == Some(r)
                    &&& world.state == state
                    &&& world.holds(cs_cam, chr_cam, cs_remo, lock_tgt, player)
                    &&& #[trigger] f.ensures((world,), r)
                },
    {
        match (cs_cam, chr_cam, cs_remo, lock_tgt, player) {
            (Some(cam), Some(chr), Some(remo), Some(tgt), Some(ins)) => {
                let world = World {
                    cs_cam: cam,
                    chr_cam: chr,
                    cs_remo: remo,
                    lock_tgt: tgt,
                    player: ins,
                    state,
                };
                Some(f(&world))
            },
            _ => None,
        }
    }

    /// The state, to read.
    pub fn state(&self) -> (state: &S)
        ensures
            state == self.state,
    {
        self.state
    }

    /// The part `T` of this world, where it is there: what `T` itself makes
    /// of it.
    pub fn get<'a, T>(&'a self) -> (part: Option<T>) where T: FromWorld<&'a Self>
        ensures
            call_ensures(T::from_world, (self,), part),
    {
        T::from_world(self)
    }
}

impl<'s, S, Cam, ChrCam, Remo, LockTgt, Player> World<
    &'s mut S,
    Cam,
    ChrCam,
    Remo,
    LockTgt,
    Player,
> {
    /// Runs `f` in the world that the five objects make with `state`, to
    /// work on, if all five are there, and hands back what it returns: `f`
    /// is given a world that holds the five objects and the reference `state`
    /// itself, and the world is let go as `f` leaves it. If one is missing
    /// there is no world: `f` is not run and the result is `None`.
    pub fn in_world_mut<R, F>(
        state: &'s mut S,
        cs_cam: Option<Cam>,
        chr_cam: Option<ChrCam>,
        cs_remo: Option<Remo>,
        lock_tgt: Option<LockTgt>,
        player: Option<Player>,
        f: F,
    ) -> (ret: Option<R>) where
        F: FnOnce(&mut World<&'s mut S, Cam, ChrCam, Remo, LockTgt, Player>) -> R,

        requires
            forall|world: &mut World<&'s mut S, Cam, ChrCam, Remo, LockTgt, Player>|
                world@ == *old(state) && world.holds(cs_cam, chr_cam, cs_remo, lock_tgt, player)
                    ==> #[trigger] f.requires((world,)),
        ensures
            ret.is_some() == all_there(cs_cam, chr_cam, cs_remo, lock_tgt, player),
            ret is Some ==> exists|
                world: &mut World<&'s mut S, Cam, ChrCam, Remo, LockTgt, Player>,
                r: R,
            |
                {
                    &&& ret == Some(r)
                    &&& *world.state == *old(state)
                    &&& *final(world.state) == *final(state)
                    &&& world.holds(cs_cam, chr_cam, cs_remo, lock_tgt, player)
                    &&& #[trigger] f.ensures((world,), r)
                    &&& *final(final(world).state) == *final(world).state
                },
            ret is None ==> *final(state) == *old(state),
    {
        match (cs_cam, chr_cam, cs_remo, lock_tgt, player) {
            (Some(cam), Some(chr), Some(remo), Some(tgt), Some(ins)) => {
                let mut world = World {
                    cs_cam: cam,
                    chr_cam: chr,
                    cs_remo: remo,
                    lock_tgt: tgt,
                    player: ins,
                    state,
                };
                Some(f(&mut world))
            },
            _ => None,
        }
    }
}

impl<'s, S, Cam, ChrCam, Remo, LockTgt, Player> WorldState for World<
    &'s mut S,
    Cam,
    ChrCam,
    Remo,
    LockTgt,
    Player,
> {
    type State = S;

    open spec fn view(&self) -> S {
        *self.state
    }

    fn state(&self) -> (state: &S) {
        &*self.state
    }

    fn state_mut(&mut self) -> (state: &mut S) {
        &mut *self.state
    }
}

impl<'s, S> Void<&'s S> {
    /// Runs `f` on `state` alone, to look at, and hands back what it returns.
    pub fn in_world<R, F>(state: &'s S, f: F) -> (ret: R) where F: FnOnce(&Void<&'s S>) -> R
        requires
            f.requires((&Void { state },)),
        ensures
            f.ensures((&Void { state },), ret),
    {
        let void = Void { state };
        f(&void)
    }

    /// The state, to read.
    pub fn state(&self) -> (state: &S)
        ensures
            state == self.state,
    {
        self.state
    }

    /// The part `T` of this void, where it is there: what `T` itself makes
    /// of it.
    pub fn get<'a, T>(&'a self) -> (part: Option<T>) where T: FromWorld<&'a Self>
        ensures
            call_ensures(T::from_world, (self,), part),
    {
        T::from_world(self)
    }
}

impl<'s, S> Void<&'s mut S> {
    /// Runs `f` on `state` alone, to work on, and hands back what it returns:
    /// `f` is given a void that holds the reference `state` itself, and the
    /// void is let go as `f` leaves it, so that what then lies behind the
    /// reference it holds stays there.
    pub fn in_world_mut<R, F>(state: &'s mut S, f: F) -> (ret: R) where
        F: FnOnce(&mut Void<&'s mut S>) -> R,

        requires
            forall|void: &mut Void<&'s mut S>| void@ == *old(state) ==> #[trigger] f.requires((void,)),
        ensures
            exists|void: &mut Void<&'s mut S>|
                {
                    &&& *void.state == *old(state)
                    &&& *final(void.state) == *final(state)
                    &&& #[trigger] f.ensures((void,), ret)
                    &&& *final(final(void).state) == *final(void).state
                },
    {
        let mut void = Void { state };
        f(&mut void)
    }
}

impl<'s, S> WorldState for Void<&'s mut S> {
    type State = S;

    open spec fn view(&self) -> S {
        *self.state
    }

    fn state(&self) -> (state: &S) {
        &*self.state
    }

    fn state_mut(&mut self) -> (state: &mut S) {
        &mut *self.state
    }
}

} // verus!
