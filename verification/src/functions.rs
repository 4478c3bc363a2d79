//! The three formatting functions that the report templates call.
//!
//! Each takes its arguments by name out of an argument mapping and fails on a
//! required argument that is missing or of the wrong type.

use vstd::prelude::*;
use vstd::string::*;
use crate::args::{arg_bool, arg_number, arg_u64, ArgValue, ArgValueView, Args, Number};
use crate::text::{decimal, decimal_string, split_on, split_text};

verus! {

/// The failure of a formatting function: a required argument is missing or of
/// the wrong type.
#[derive(Debug, PartialEq, Eq)]
pub struct FormatError {
    /// The name of the argument.
    pub argument: String,
}

impl FormatError {
    /// The message for the argument named `argument`.
    pub open spec fn spec_message(argument: Seq<char>) -> Seq<char> {
        "missing or invalid argument `"@ + argument + "`"@
    }

    /// The message that names the argument.
    pub fn message(&self) -> (r: String)
        ensures
            r@ == Self::spec_message(self.argument@),
    {
        let mut r = "missing or invalid argument `".to_owned();
        r.append(self.argument.as_str());
        r.append("`");
        r
    }
}

/// What a formatting function returned, as mathematics: the value's view, or
/// the name of the argument that it failed on.
pub open spec fn outcome(r: Result<ArgValue, FormatError>) -> Result<ArgValueView, Seq<char>> {
    match r {
        Ok(v) => Ok(v@),
        Err(e) => Err(e.argument@),
    }
}

fn failed_on(argument: &str) -> (e: FormatError)
    ensures
        e.argument@ == argument@,
{
    FormatError { argument: argument.to_owned() }
}

/// The name of the prevailing wind of wind group `w`.
pub open spec fn wind_name(w: int) -> Seq<char>
    recommends
        0 <= w < 4,
{
    if w == 0 {
        "East"@
    } else if w == 1 {
        "South"@
    } else if w == 2 {
        "West"@
    } else {
        "North"@
    }
}

/// The label of round `kyoku` with repeat counter `honba`: the wind of the
/// round's group of four, the round's number within the group counted from
/// one, and the counter after a hyphen where it is not zero.
pub open spec fn round_label(kyoku: nat, honba: nat) -> Seq<char>
    recommends
        kyoku < 16,
{
    let base = wind_name(kyoku as int / 4) + " "@ + decimal((kyoku % 4 + 1) as nat);
    if honba == 0 {
        base
    } else {
        base + "-"@ + decimal(honba)
    }
}

fn wind_str(w: u64) -> (r: &'static str)
    requires
        w < 4,
    ensures
        r@ == wind_name(w as int),
{
    if w == 0 {
        "East"
    } else if w == 1 {
        "South"
    } else if w == 2 {
        "West"
    } else {
        "North"
    }
}

/// Writes the label of round `kyoku` with repeat counter `honba`.
pub fn round_label_string(kyoku: u64, honba: u64) -> (r: String)
    requires
        kyoku < 16,
    ensures
        r@ == round_label(kyoku as nat, honba as nat),
{
    let mut r = wind_str(kyoku / 4).to_owned();
    r.append(" ");
    r.append(decimal_string(kyoku % 4 + 1).as_str());
    if honba != 0 {
        r.append("-");
        r.append(decimal_string(honba).as_str());
    }
    r
}

/// What the round label function returns on `args`: it reads `kyoku`, then
/// `honba`, both unsigned integers.
pub open spec fn kyoku_to_string_result(args: Map<Seq<char>, ArgValueView>) -> Result<
    ArgValueView,
    Seq<char>,
> {
    match arg_u64(args, "kyoku"@) {
        None => Err("kyoku"@),
        Some(kyoku) => match arg_u64(args, "honba"@) {
            None => Err("honba"@),
            Some(honba) => Ok(ArgValueView::Text(round_label(kyoku as nat, honba as nat))),
        },
    }
}

/// The round label function. There are four winds, so where both arguments
/// are given the round index has to be below sixteen.
pub fn kyoku_to_string(args: &Args) -> (r: Result<ArgValue, FormatError>)
    requires
        arg_u64(args@, "kyoku"@) is Some && arg_u64(args@, "honba"@) is Some ==> arg_u64(
            args@,
            "kyoku"@,
        )->0 < 16,
    ensures
        outcome(r) == kyoku_to_string_result(args@),
{
    let kyoku = match args.get_u64("kyoku") {
        Some(k) => k,
        None => {
            return Err(failed_on("kyoku"));
        },
    };
    let honba = match args.get_u64("honba") {
        Some(h) => h,
        None => {
            return Err(failed_on("honba"));
        },
    };
    Ok(ArgValue::Text(round_label_string(kyoku, honba)))
}

/// How far the seat `target` is from the seat `player_id`, counted around the
/// table: 0 for the same seat, then 1, 2 and 3.
pub open spec fn seat_offset(player_id: int, target: int) -> int {
    (player_id + 4 - target) % 4
}

/// The label of a seat at distance `offset` from the viewer.
pub open spec fn seat_label(offset: int) -> Seq<char>
    recommends
        0 <= offset < 4,
{
    if offset == 0 {
        "Self👇"@
    } else if offset == 1 {
        "Shimocha👉"@
    } else if offset == 2 {
        "Toimen👆"@
    } else {
        "Kamicha👈"@
    }
}

/// The distance between two seats is one of 0, 1, 2 and 3.
pub proof fn lemma_seat_offset_in_range(player_id: int, target: int)
    ensures
        0 <= seat_offset(player_id, target) < 4,
{
}

/// Every seat sees itself as its own.
pub proof fn lemma_own_seat(seat: int)
    ensures
        seat_offset(seat, seat) == 0,
        seat_label(seat_offset(seat, seat)) == "Self👇"@,
{
}

/// The distance between two seats depends on nothing but their difference
/// modulo 4: it is periodic with period 4 in `player_id - target`.
pub proof fn lemma_seat_offset_periodic(player_id: int, target: int, other_id: int, other_target: int)
    requires
        (player_id - target) % 4 == (other_id - other_target) % 4,
    ensures
        seat_offset(player_id, target) == seat_offset(other_id, other_target),
{
}

/// Going round the table from a seat, the viewer who sits one, two and three
/// seats further on is at distance 1, 2 and 3, and the seat is labelled for
/// them accordingly.
pub proof fn lemma_seats_around(target: int)
    ensures
        seat_offset(target + 1, target) == 1,
        seat_offset(target + 2, target) == 2,
        seat_offset(target + 3, target) == 3,
        seat_label(seat_offset(target + 1, target)) == "Shimocha👉"@,
        seat_label(seat_offset(target + 2, target)) == "Toimen👆"@,
        seat_label(seat_offset(target + 3, target)) == "Kamicha👈"@,
{
}

/// Writes the label of the seat `target` as the player in seat `player_id`
/// sees it.
pub fn seat_label_string(player_id: u64, target: u64) -> (r: String)
    ensures
        r@ == seat_label(seat_offset(player_id as int, target as int)),
{
    let offset: u64 = (player_id % 4 + 4 - target % 4) % 4;
    assert(offset == seat_offset(player_id as int, target as int));
    let label = if offset == 0 {
        "Self👇"
    } else if offset == 1 {
        "Shimocha👉"
    } else if offset == 2 {
        "Toimen👆"
    } else {
        "Kamicha👈"
    };
    label.to_owned()
}

/// What the seat label function returns on `args`: it reads `player_id`, then
/// `target`, both unsigned integers.
pub open spec fn position_string_result(args: Map<Seq<char>, ArgValueView>) -> Result<
    ArgValueView,
    Seq<char>,
> {
    match arg_u64(args, "player_id"@) {
        None => Err("player_id"@),
        Some(player_id) => match arg_u64(args, "target"@) {
            None => Err("target"@),
            Some(target) => Ok(
                ArgValueView::Text(seat_label(seat_offset(player_id as int, target as int))),
            ),
        },
    }
}

/// The seat label function.
pub fn position_string(args: &Args) -> (r: Result<ArgValue, FormatError>)
    ensures
        outcome(r) == position_string_result(args@),
{
    let player_id = match args.get_u64("player_id") {
        Some(p) => p,
        None => {
            return Err(failed_on("player_id"));
        },
    };
    let target = match args.get_u64("target") {
        Some(t) => t,
        None => {
            return Err(failed_on("target"));
        },
    };
    Ok(ArgValue::Text(seat_label_string(player_id, target)))
}

/// What the rounded number function is asked for: the number, how many
/// fractional digits to write, and whether to hand the two halves out apart.
#[derive(Clone, Copy, Debug, PartialEq, Eq)]
pub struct RoundRequest {
    pub num: Number,
    pub prec: u64,
    pub split: bool,
}

/// The request that `args` makes of the rounded number function: `num` is
/// required and may be any number, `prec` is 5 and `split` is off unless an
/// argument of the right type says otherwise.
pub open spec fn pretty_round_request_result(args: Map<Seq<char>, ArgValueView>) -> Result<
    RoundRequest,
    Seq<char>,
> {
    match arg_number(args, "num"@) {
        None => Err("num"@),
        Some(num) => Ok(
            RoundRequest {
                num,
                prec: match arg_u64(args, "prec"@) {
                    Some(prec) => prec,
                    None => 5,
                },
                split: match arg_bool(args, "split"@) {
                    Some(split) => split,
                    None => false,
                },
            },
        ),
    }
}

/// What a request for a rounded number came to, as mathematics: the request,
/// or the name of the argument that it failed on.
pub open spec fn request_outcome(r: Result<RoundRequest, FormatError>) -> Result<
    RoundRequest,
    Seq<char>,
> {
    match r {
        Ok(request) => Ok(request),
        Err(e) => Err(e.argument@),
    }
}

/// The first half of the rounded number function: reads the arguments.
pub fn pretty_round_request(args: &Args) -> (r: Result<RoundRequest, FormatError>)
    ensures
        request_outcome(r) == pretty_round_request_result(args@),
{
    let num = match args.get_number("num") {
        Some(n) => n,
        None => {
            return Err(failed_on("num"));
        },
    };
    let prec = match args.get_u64("prec") {
        Some(p) => p,
        None => 5,
    };
    let split = match args.get_bool("split") {
        Some(s) => s,
        None => false,
    };
    Ok(RoundRequest { num, prec, split })
}

/// What the rounded number function returns for the number written out as
/// `text`: the text itself, or its fields between decimal points.
pub open spec fn pretty_round_value_of(text: Seq<char>, split: bool) -> ArgValueView {
    if split {
        ArgValueView::List(split_on(text, '.'))
    } else {
        ArgValueView::Text(text)
    }
}

/// The second half of the rounded number function: takes the number written
/// out with the requested digits and hands it out whole or in halves.
pub fn pretty_round_value(text: &str, split: bool) -> (r: ArgValue)
    ensures
        r@ == pretty_round_value_of(text@, split),
{
    if split {
        ArgValue::List(split_text(text, '.'))
    } else {
        ArgValue::Text(text.to_owned())
    }
}

} // verus!
