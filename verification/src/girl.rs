//! A stateful demonstration component wired into the message bus.
//!
//! `Girl` is the one element type of the library itself that owns a message
//! handler: it listens for `GirlActions` messages and records each action it
//! receives in its morning routine, in arrival order. It doubles as the
//! concrete witness that the bus's dispatch contracts are inhabitable.

use vstd::prelude::*;

use crate::message::Message;
use crate::message::MessageContext;
use crate::message::MessageHandler;

verus! {

/// The stable type tag of the `Girl` element type.
pub const GIRL_TYPE_ID: u64 = 1;

/// The stable tag of the `GirlActions::SayHi` message kind.
pub const SAY_HI_TAG: u64 = 11;

/// The stable tag of the `GirlActions::PrepareBreakfast` message kind.
pub const PREPARE_BREAKFAST_TAG: u64 = 12;

#[derive(Debug, Clone, Copy, PartialEq, Eq, Structural)]
pub enum HairColor {
    Black,
    Brown,
    Blonde,
    Red,
}

impl Default for HairColor {
    fn default() -> (c: HairColor)
        ensures
            c == HairColor::Brown,
    {
        HairColor::Brown
    }
}

#[derive(Debug, Clone, Copy, PartialEq, Eq, Structural)]
pub enum SkinColor {
    Yellow,
    Light,
    Dark,
}

impl Default for SkinColor {
    fn default() -> (c: SkinColor)
        ensures
            c == SkinColor::Light,
    {
        SkinColor::Light
    }
}

#[derive(Debug, Clone, Copy, PartialEq, Eq, Structural)]
pub enum BodyType {
    Slim,
    Average,
    Curvy,
}

impl Default for BodyType {
    fn default() -> (b: BodyType)
        ensures
            b == BodyType::Average,
    {
        BodyType::Average
    }
}

#[derive(Debug, Clone, Copy, PartialEq, Eq, Structural)]
pub enum Appearance {
    Beautiful,
    Cute,
    Plain,
}

impl Default for Appearance {
    fn default() -> (a: Appearance)
        ensures
            a == Appearance::Cute,
    {
        Appearance::Cute
    }
}

/// An action a `Girl` element may be asked to perform, sent as a message.
/// Each variant is its own message kind, with its own stable tag.
#[derive(Debug, Clone, Copy, PartialEq, Eq, Structural)]
pub enum GirlActions {
    SayHi,
    PrepareBreakfast,
}

impl Message for GirlActions {
    open spec fn spec_tag(&self) -> u64 {
        match self {
            GirlActions::SayHi => SAY_HI_TAG,
            GirlActions::PrepareBreakfast => PREPARE_BREAKFAST_TAG,
        }
    }

    fn tag(&self) -> (t: u64) {
        match self {
            GirlActions::SayHi => SAY_HI_TAG,
            GirlActions::PrepareBreakfast => PREPARE_BREAKFAST_TAG,
        }
    }
}

/// A stateful component: its appearance is plain data, and its morning
/// routine records every action delivered to it, oldest first.
#[derive(Debug, Clone)]
pub struct Girl {
    pub hair_color: HairColor,
    pub skin_color: SkinColor,
    pub body_type: BodyType,
    pub appearance: Appearance,
    pub every_morning: Vec<GirlActions>,
}

impl Default for Girl {
    fn default() -> (g: Girl)
        ensures
            g.hair_color == HairColor::Brown,
            g.skin_color == SkinColor::Light,
            g.body_type == BodyType::Average,
            g.appearance == Appearance::Cute,
            g.every_morning@.len() == 0,
    {
        Girl {
            hair_color: HairColor::default(),
            skin_color: SkinColor::default(),
            body_type: BodyType::default(),
            appearance: Appearance::default(),
            every_morning: Vec::new(),
        }
    }
}

impl MessageHandler<GirlActions> for Girl {
    /// One invocation appends the delivered action to the morning routine
    /// and leaves the appearance untouched.
    open spec fn handle_rel(pre: Girl, msg: GirlActions, post: Girl) -> bool {
        &&& post.hair_color == pre.hair_color
        &&& post.skin_color == pre.skin_color
        &&& post.body_type == pre.body_type
        &&& post.appearance == pre.appearance
        &&& post.every_morning@ == pre.every_morning@.push(msg)
    }

    fn handle(&mut self, msg: &GirlActions, ctx: &mut MessageContext) {
        self.every_morning.push(*msg);
    }
}

} // verus!
