//! A transient overlay of debug shapes.
//!
//! Shapes are queued with a start time and a duration on a list that the
//! caller owns. Once per frame [`draw_debug`] hands out the shapes that are
//! still live, in the order in which they were queued, and drops the rest.

use crate::fixed::Fixed;
use crate::vectorhelper::Vector2;
use vstd::prelude::*;

verus! {

/// A colour with 8 bits per channel.
#[derive(Clone, Copy, Debug, PartialEq, Eq, Structural)]
pub struct Color {
    pub r: u8,
    pub g: u8,
    pub b: u8,
    pub a: u8,
}

/// A shape to draw.
#[derive(Clone, Copy, Debug, PartialEq, Eq, Structural)]
pub enum DrawCommand {
    /// A line from the first point to the second.
    Line(Vector2, Vector2, Color),
    /// A circle with the given centre and radius.
    Circle(Vector2, Fixed, Color),
    /// A rectangle with the given top-left corner and size.
    Rectangle(Vector2, Vector2, Color),
}

/// A queued shape: what to draw, since when, and for how long.
#[derive(Clone, Copy, Debug, PartialEq, Eq, Structural)]
pub struct DrawHandle {
    pub draw_command: DrawCommand,
    pub start_time: Fixed,
    pub duration: Fixed,
}

/// The shape is still to be drawn at `time`: its duration has not run out.
pub open spec fn is_live(handle: DrawHandle, time: int) -> bool {
    handle.start_time@ + handle.duration@ > time
}

/// The entries of `list` that are live at `time`, in their order.
pub open spec fn live_at(list: Seq<DrawHandle>, time: int) -> Seq<DrawHandle> {
    list.filter(|h: DrawHandle| is_live(h, time))
}

impl DrawHandle {
    /// Whether the shape is still to be drawn at `time`.
    pub fn live(&self, time: Fixed) -> (r: bool)
        ensures
            r == is_live(*self, time@),
    {
        (self.start_time.raw as i128) + (self.duration.raw as i128) > (time.raw as i128)
    }
}

/// Queues a line from `start_pos` to `end_pos`, to be shown from `now` on for
/// `duration`.
pub fn draw_line(
    list: &mut Vec<DrawHandle>,
    now: Fixed,
    start_pos: Vector2,
    end_pos: Vector2,
    color: Color,
    duration: Fixed,
)
    ensures
        final(list)@ == old(list)@.push(
            DrawHandle {
                draw_command: DrawCommand::Line(start_pos, end_pos, color),
                start_time: now,
                duration,
            },
        ),
{
    list.push(
        DrawHandle {
            draw_command: DrawCommand::Line(start_pos, end_pos, color),
            start_time: now,
            duration,
        },
    );
}

/// Queues a circle around `position`, to be shown from `now` on for `duration`.
pub fn draw_circle(
    list: &mut Vec<DrawHandle>,
    now: Fixed,
    position: Vector2,
    radius: Fixed,
    color: Color,
    duration: Fixed,
)
    ensures
        final(list)@ == old(list)@.push(
            DrawHandle {
                draw_command: DrawCommand::Circle(position, radius, color),
                start_time: now,
                duration,
            },
        ),
{
    list.push(
        DrawHandle {
            draw_command: DrawCommand::Circle(position, radius, color),
            start_time: now,
            duration,
        },
    );
}

/// Queues a rectangle at `position`, to be shown from `now` on for `duration`.
pub fn draw_rectangle(
    list: &mut Vec<DrawHandle>,
    now: Fixed,
    position: Vector2,
    size: Vector2,
    color: Color,
    duration: Fixed,
)
    ensures
        final(list)@ == old(list)@.push(
            DrawHandle {
                draw_command: DrawCommand::Rectangle(position, size, color),
                start_time: now,
                duration,
            },
        ),
{
    list.push(
        DrawHandle {
            draw_command: DrawCommand::Rectangle(position, size, color),
            start_time: now,
            duration,
        },
    );
}

/// The frame's pass over the overlay: drops every shape whose duration has
/// run out at `time` and returns the commands of those that stay, in the
/// order in which they were queued, for the caller to draw.
pub fn draw_debug(list: &mut Vec<DrawHandle>, time: Fixed) -> (commands: Vec<DrawCommand>)
    ensures
        final(list)@ == live_at(old(list)@, time@),
        commands@ == final(list)@.map_values(|h: DrawHandle| h.draw_command),
{
    let ghost pred = |h: DrawHandle| is_live(h, time@);
    let ghost command_of = |h: DrawHandle| h.draw_command;
    let mut kept: Vec<DrawHandle> = Vec::new();
    let mut commands: Vec<DrawCommand> = Vec::new();
    let mut i: usize = 0;
    assert(list@.take(0) =~= Seq::<DrawHandle>::empty());
    assert(kept@ =~= list@.take(0).filter(pred)) by {
        reveal_with_fuel(Seq::filter, 1);
    }
    while i < list.len()
        invariant
            i <= list.len(),
            *list == *old(list),
            pred == (|h: DrawHandle| is_live(h, time@)),
            command_of == (|h: DrawHandle| h.draw_command),
            kept@ == list@.take(i as int).filter(pred),
            commands@ == kept@.map_values(command_of),
        decreases list.len() - i,
    {
        let handle: DrawHandle = list[i];
        proof {
            let next = list@.take(i + 1);
            assert(next.drop_last() =~= list@.take(i as int));
            assert(next.last() == handle);
            reveal_with_fuel(Seq::filter, 1);
        }
        if handle.live(time) {
            kept.push(handle);
            commands.push(handle.draw_command);
            assert(commands@ =~= kept@.map_values(command_of));
        }
        i = i + 1;
    }
    assert(list@.take(list@.len() as int) =~= list@);
    *list = kept;
    commands
}

} // verus!
