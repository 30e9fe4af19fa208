//! Rooms: drawing a code that no active room holds, and looking rooms up.

use vstd::prelude::*;
use crate::common::{Phase, ServiceError};
use crate::entities::room::{rooms, Model, Room};
use crate::text::{
    decimal_text, decimal_value, is_digit, lemma_padded_decimal, lemma_padded_value, padded_decimal,
    pow10, push_decimal, push_padded,
};

verus! {

/// Room codes are the numbers below this bound.
pub const CODE_SPACE: u32 = 1_000_000_000;

/// A room code has this many digits.
pub const CODE_WIDTH: u8 = 9;

/// After this many draws that all met an active room, drawing gives up.
pub const MAX_DRAWS: u32 = 1000;

/// The standard generator of the `rand` crate, carried through as it is.
#[verifier::external_type_specification]
#[verifier::external_body]
pub struct ExStdRng(rand::rngs::StdRng);

/// Draws a number below `bound` from the generator, with
/// `rand::Rng::random_range` over `0..bound`. The call panics on an empty
/// range, which the bound leaves out; all that is claimed of the number is
/// that it lies in the range.
#[verifier::external_body]
fn draw_number(rng: &mut rand::rngs::StdRng, bound: u32) -> (n: u32)
    requires
        bound > 0,
    ensures
        n < bound,
{
    rand::Rng::random_range(rng, 0..bound)
}

/// The code that stands for the number `n`: its decimal digits, filled
/// with zeros in front to nine.
pub open spec fn code_text(n: u32) -> Seq<char> {
    padded_decimal(n as nat, CODE_WIDTH as nat)
}

/// Whether `text` has the form of a room code: nine decimal digits.
pub open spec fn is_code(text: Seq<char>) -> bool {
    &&& text.len() == CODE_WIDTH
    &&& forall|i: int| 0 <= i < text.len() ==> is_digit(#[trigger] text[i])
}

/// Whether a room with this code is active at `now`: its end lies strictly
/// after `now`.
pub open spec fn held_by_active(all: Seq<Room>, code: Seq<char>, now: i64) -> bool {
    exists|i: int| 0 <= i < all.len() && (#[trigger] all[i]).code == code && all[i].end_time > now
}

/// The text of the error for a room that the store does not hold.
pub open spec fn room_not_found_text(id: i32) -> Seq<char> {
    "room not found: "@ + decimal_text(id as int)
}

/// Where the drawing of a code stands between two store calls.
#[derive(Clone, Copy, Debug, PartialEq, Eq, Structural)]
pub enum DrawState {
    /// Nothing has been drawn yet.
    Idle,
    /// The store has been asked whether an active room holds the code of
    /// `candidate`, the `draws`-th number drawn. `now` is the time against
    /// which every check of this drawing is made.
    Checking { candidate: u32, draws: u32, now: i64 },
    /// The drawing has ended.
    Closed,
}

/// What the caller reports to the drawing of a code.
#[derive(Debug, PartialEq, Eq)]
pub enum DrawEvent<E> {
    /// The drawing is to start; `now` is the current time.
    Begin { now: i64 },
    /// The store's answer to the last check: whether a room with the code
    /// exists whose end lies strictly after the time given, or why it could
    /// not tell.
    Checked(Result<bool, E>),
}

/// What the drawing of a code asks of the caller next.
#[derive(Debug, PartialEq, Eq)]
pub enum DrawAction<E> {
    /// Ask the store whether a room with exactly this code exists whose end
    /// lies strictly after `now`, and report `Checked`.
    Check { code: String, now: i64 },
    /// The drawing is over, with this result.
    Finish(Result<String, ServiceError<E>>),
    /// The event does not answer what was asked. Nothing is to be done, and
    /// the state is as it was.
    Reject,
}

/// The drawing goes on with a check of a newly drawn number, the
/// `draws`-th.
pub open spec fn checks_new_number<E>(
    draws: int,
    now: i64,
    next: DrawState,
    action: DrawAction<E>,
) -> bool {
    &&& next matches DrawState::Checking { candidate, draws: d, now: t }
    &&& candidate < CODE_SPACE
    &&& d == draws
    &&& t == now
    &&& action matches DrawAction::Check { code, now: asked }
    &&& code@ == code_text(candidate)
    &&& asked == now
}

/// The transition of the drawing of a code: in `state`, on `event`, it
/// moves to `next` and asks for `action`.
pub open spec fn draw_step<E>(
    state: DrawState,
    event: DrawEvent<E>,
    next: DrawState,
    action: DrawAction<E>,
) -> bool {
    match (state, event) {
        (DrawState::Idle, DrawEvent::Begin { now }) => checks_new_number(1, now, next, action),
        (DrawState::Checking { candidate, draws, now }, DrawEvent::Checked(Ok(held))) => {
            if !held {
                &&& next is Closed
                &&& action matches DrawAction::Finish(Ok(code))
                &&& code@ == code_text(candidate)
            } else if draws < MAX_DRAWS {
                checks_new_number(draws + 1, now, next, action)
            } else {
                &&& next is Closed
                &&& action == DrawAction::<E>::Finish(Err(ServiceError::CodeSpaceExhausted))
            }
        },
        (DrawState::Checking { .. }, DrawEvent::Checked(Err(e))) => {
            &&& next is Closed
            &&& action == DrawAction::Finish(
                Err(ServiceError::StoreUnavailable { phase: Phase::CodeCheck, cause: e }),
            )
        },
        _ => {
            &&& next == state
            &&& action is Reject
        },
    }
}

/// The rules for room rows and room codes.
pub struct RoomService;

impl RoomService {
    /// The code that stands for `n`.
    pub fn format_code(n: u32) -> (code: String)
        ensures
            code@ == code_text(n),
            is_code(code@),
    {
        let mut code = String::new();
        push_padded(&mut code, n, CODE_WIDTH);
        proof {
            lemma_padded_decimal(n as nat, CODE_WIDTH as nat);
            assert(code@ =~= code_text(n));
        }
        code
    }

    /// Whether one of `all` holds `code` and is active at `now`.
    pub fn code_is_held(all: &Vec<Model>, code: &String, now: i64) -> (held: bool)
        ensures
            held == held_by_active(rooms(all@), code@, now),
    {
        let mut i: usize = 0;
        while i < all.len()
            invariant
                i <= all.len(),
                forall|k: int|
                    0 <= k < i ==> !((#[trigger] rooms(all@)[k]).code == code@ && rooms(
                        all@,
                    )[k].end_time > now),
            decreases all.len() - i,
        {
            if all[i].code == *code && all[i].end_time > now {
                assert(rooms(all@)[i as int].code == code@ && rooms(all@)[i as int].end_time > now);
                return true;
            }
            i += 1;
        }
        false
    }

    /// Draws a number and asks for the check of its code.
    fn check_new_number<E>(draws: u32, now: i64, rng: &mut rand::rngs::StdRng) -> (out: (
        DrawState,
        DrawAction<E>,
    ))
        ensures
            checks_new_number(draws as int, now, out.0, out.1),
    {
        let candidate = draw_number(rng, CODE_SPACE);
        (
            DrawState::Checking { candidate, draws, now },
            DrawAction::Check { code: Self::format_code(candidate), now },
        )
    }

    /// One step of drawing a room code that no active room holds.
    ///
    /// The caller starts with `Idle` and `Begin`, performs each check on the
    /// store and reports its outcome with the state it got, until the
    /// action is `Finish`. Each check is of a number drawn from `rng`,
    /// against the time given at the start. The first code that no active
    /// room holds is the result; a failed check ends the drawing; after
    /// `MAX_DRAWS` codes that were all held it gives up.
    pub fn get_no_dup_code<E>(
        rng: &mut rand::rngs::StdRng,
        state: DrawState,
        event: DrawEvent<E>,
    ) -> (out: (DrawState, DrawAction<E>))
        ensures
            draw_step(state, event, out.0, out.1),
    {
        match state {
            DrawState::Idle => match event {
                DrawEvent::Begin { now } => Self::check_new_number(1, now, rng),
                _ => (state, DrawAction::Reject),
            },
            DrawState::Checking { candidate, draws, now } => match event {
                DrawEvent::Checked(Ok(held)) => {
                    if !held {
                        (DrawState::Closed, DrawAction::Finish(Ok(Self::format_code(candidate))))
                    } else if draws < MAX_DRAWS {
                        Self::check_new_number(draws + 1, now, rng)
                    } else {
                        (
                            DrawState::Closed,
                            DrawAction::Finish(Err(ServiceError::CodeSpaceExhausted)),
                        )
                    }
                },
                DrawEvent::Checked(Err(e)) => (
                    DrawState::Closed,
                    DrawAction::Finish(
                        Err(ServiceError::StoreUnavailable { phase: Phase::CodeCheck, cause: e }),
                    ),
                ),
                _ => (state, DrawAction::Reject),
            },
            DrawState::Closed => (state, DrawAction::Reject),
        }
    }

    /// What a lookup of room `id` comes to: the room where the store holds
    /// it, `NotFound` where it holds none, and the store's failure as it
    /// came.
    pub fn get_room_by_id<E>(id: i32, found: Result<Option<Model>, E>) -> (r: Result<
        Model,
        ServiceError<E>,
    >)
        ensures
            match found {
                Ok(Some(room)) => r == Ok::<Model, ServiceError<E>>(room),
                Ok(None) => r matches Err(ServiceError::NotFound(text)) && text@
                    == room_not_found_text(id),
                Err(e) => r == Err::<Model, ServiceError<E>>(
                    ServiceError::StoreUnavailable { phase: Phase::Lookup, cause: e },
                ),
            },
    {
        match found {
            Ok(Some(room)) => Ok(room),
            Ok(None) => {
                let mut text = "room not found: ".to_owned();
                push_decimal(&mut text, id);
                Err(ServiceError::NotFound(text))
            },
            Err(e) => Err(ServiceError::StoreUnavailable { phase: Phase::Lookup, cause: e }),
        }
    }

    /// Draws a room code against the rooms given, in place of a store:
    /// runs the drawing to its end, answering each check from `all`.
    ///
    /// A code that comes back has the form of a code and is held by no room
    /// of `all` that is active at `now`; it may be the code of a room that
    /// has ended. Where no room is active, a code comes back. `None` says
    /// that `MAX_DRAWS` draws all met an active room.
    pub fn get_no_dup_code_among(all: &Vec<Model>, now: i64, rng: &mut rand::rngs::StdRng) -> (r:
        Option<String>)
        ensures
            r matches Some(code) ==> is_code(code@) && !held_by_active(rooms(all@), code@, now),
            (forall|i: int| 0 <= i < all.len() ==> (#[trigger] rooms(all@)[i]).end_time <= now)
                ==> r is Some,
    {
        let mut at: (DrawState, DrawAction<()>) = Self::get_no_dup_code(
            rng,
            DrawState::Idle,
            DrawEvent::Begin { now },
        );
        loop
            invariant
                at.0 matches DrawState::Checking { candidate, draws, now: t },
                at.0->draws <= MAX_DRAWS,
                at.0->now == now,
                at.1 matches DrawAction::Check { code, now: asked },
                at.1->code@ == code_text(at.0->candidate),
                at.1->Check_now == now,
            decreases MAX_DRAWS - at.0->draws,
        {
            let held = match &at.1 {
                DrawAction::Check { code, now: asked } => Self::code_is_held(all, code, *asked),
                _ => true,
            };
            let ghost asked_code = at.1->code@;
            let ghost before = at.0;
            at = Self::get_no_dup_code(rng, at.0, DrawEvent::Checked(Ok(held)));
            match at.1 {
                DrawAction::Finish(Ok(code)) => {
                    proof {
                        lemma_padded_decimal(before->candidate as nat, CODE_WIDTH as nat);
                    }
                    return Some(code);
                },
                DrawAction::Finish(Err(_)) => {
                    assert(held_by_active(rooms(all@), asked_code, now));
                    return None;
                },
                _ => {},
            }
        }
    }
}

/// Code uniqueness. Where the drawing of a code ends with a code, and the
/// event that ended it was the true answer of a store that holds the rooms
/// `all`, then no room of `all` that is active at the time of the drawing
/// holds that code. Nothing is said of rooms that have ended: their codes
/// may come back.
pub proof fn law_code_uniqueness<E>(
    all: Seq<Room>,
    state: DrawState,
    event: DrawEvent<E>,
    next: DrawState,
    action: DrawAction<E>,
)
    requires
        draw_step(state, event, next, action),
        action matches DrawAction::Finish(Ok(_)),
        state matches DrawState::Checking { candidate, now, .. } ==> (event matches DrawEvent::Checked(
            Ok(held),
        ) ==> held == held_by_active(all, code_text(candidate), now)),
    ensures
        state matches DrawState::Checking { now, .. } && action matches DrawAction::Finish(Ok(code))
            && !held_by_active(all, code@, now),
{
}

/// Code format. The code of every number has nine characters, each a
/// decimal digit; read as a decimal, the code of a number of the code space
/// is that number, so a number of fewer digits has zeros in front.
pub proof fn law_code_format(n: u32)
    ensures
        is_code(code_text(n)),
        n < CODE_SPACE ==> decimal_value(code_text(n)) == n,
{
    lemma_padded_decimal(n as nat, CODE_WIDTH as nat);
    lemma_padded_value(n as nat, CODE_WIDTH as nat);
    assert(pow10(CODE_WIDTH as nat) == CODE_SPACE) by {
        reveal_with_fuel(pow10, 10);
    }
    if n < CODE_SPACE {
        vstd::arithmetic::div_mod::lemma_small_mod(n as nat, CODE_SPACE as nat);
    }
}

} // verus!
