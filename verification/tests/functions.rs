use mjai_reviewer::args::{Arg, ArgValue, Args, Number};
use mjai_reviewer::functions::{
    kyoku_to_string, position_string, pretty_round_request, pretty_round_value,
    round_label_string, seat_label_string, FormatError, RoundRequest,
};

fn unsigned(pairs: &[(&str, u64)]) -> Args {
    let mut args = Args::new();
    for (name, value) in pairs {
        args.insert((*name).to_owned(), ArgValue::Number(Number::Unsigned(*value)));
    }
    args
}

fn text(s: &str) -> ArgValue {
    ArgValue::Text(s.to_owned())
}

fn failure(argument: &str) -> FormatError {
    FormatError { argument: argument.to_owned() }
}

fn fixed(num: f64, prec: u64) -> String {
    format!("{:.*}", prec as usize, num)
}

fn rounded(num: f64, prec: u64, split: bool) -> ArgValue {
    let mut args = Args::new();
    args.insert("num".to_owned(), ArgValue::Number(Number::Float(num.to_bits())));
    args.insert("prec".to_owned(), ArgValue::Number(Number::Unsigned(prec)));
    args.insert("split".to_owned(), ArgValue::Bool(split));
    let request = pretty_round_request(&args).unwrap();
    let num = match request.num {
        Number::Float(bits) => f64::from_bits(bits),
        Number::Unsigned(n) => n as f64,
        Number::Signed(n) => n as f64,
    };
    pretty_round_value(&fixed(num, request.prec), request.split)
}

#[test]
fn args_bind_names_to_values() {
    let mut args = Args::new();
    assert_eq!(args.get("kyoku"), None);
    args.insert("kyoku".to_owned(), ArgValue::Number(Number::Unsigned(3)));
    args.insert("split".to_owned(), ArgValue::Bool(true));
    assert_eq!(args.get("kyoku"), Some(&ArgValue::Number(Number::Unsigned(3))));
    assert_eq!(args.get("split"), Some(&ArgValue::Bool(true)));
    assert_eq!(args.get("honba"), None);
    assert_eq!(args.get("kyok"), None);
    args.insert("kyoku".to_owned(), text("three"));
    assert_eq!(args.get("kyoku"), Some(&text("three")));
    assert_eq!(args.get("split"), Some(&ArgValue::Bool(true)));
}

#[test]
fn args_are_read_by_type() {
    let mut args = Args::new();
    args.insert("a".to_owned(), ArgValue::Number(Number::Unsigned(7)));
    args.insert("b".to_owned(), ArgValue::Number(Number::Signed(7)));
    args.insert("c".to_owned(), ArgValue::Number(Number::Signed(-7)));
    args.insert("d".to_owned(), ArgValue::Number(Number::Float(7.0f64.to_bits())));
    args.insert("e".to_owned(), ArgValue::Bool(true));
    args.insert("f".to_owned(), text("7"));
    args.insert("g".to_owned(), ArgValue::List(vec!["7".to_owned()]));
    assert_eq!(args.get_u64("a"), Some(7));
    assert_eq!(args.get_u64("b"), Some(7));
    assert_eq!(args.get_u64("c"), None);
    assert_eq!(args.get_u64("d"), None);
    assert_eq!(args.get_u64("e"), None);
    assert_eq!(args.get_u64("f"), None);
    assert_eq!(args.get_u64("g"), None);
    assert_eq!(args.get_u64("h"), None);
    assert_eq!(args.get_bool("e"), Some(true));
    assert_eq!(args.get_bool("a"), None);
    assert_eq!(args.get_bool("h"), None);
    assert_eq!(args.get_number("a"), Some(Number::Unsigned(7)));
    assert_eq!(args.get_number("c"), Some(Number::Signed(-7)));
    assert_eq!(args.get_number("d"), Some(Number::Float(7.0f64.to_bits())));
    assert_eq!(args.get_number("e"), None);
    assert_eq!(args.get_number("h"), None);
}

#[test]
fn number_as_u64() {
    assert_eq!(Number::Unsigned(u64::MAX).as_u64(), Some(u64::MAX));
    assert_eq!(Number::Signed(0).as_u64(), Some(0));
    assert_eq!(Number::Signed(i64::MAX).as_u64(), Some(i64::MAX as u64));
    assert_eq!(Number::Signed(-1).as_u64(), None);
    assert_eq!(Number::Float(1.0f64.to_bits()).as_u64(), None);
}

#[test]
fn arg_holds_a_name_and_a_value() {
    let arg = Arg { name: "kyoku".to_owned(), value: ArgValue::Bool(false) };
    assert_eq!(arg, Arg { name: "kyoku".to_owned(), value: ArgValue::Bool(false) });
}

#[test]
fn round_label_of_first_round() {
    assert_eq!(kyoku_to_string(&unsigned(&[("kyoku", 0), ("honba", 0)])), Ok(text("East 1")));
}

#[test]
fn round_label_with_repeat_counter() {
    assert_eq!(kyoku_to_string(&unsigned(&[("kyoku", 7), ("honba", 2)])), Ok(text("South 4-2")));
}

#[test]
fn round_label_of_last_west_round() {
    assert_eq!(kyoku_to_string(&unsigned(&[("kyoku", 11), ("honba", 0)])), Ok(text("West 4")));
}

#[test]
fn round_label_of_every_round() {
    let winds = ["East", "South", "West", "North"];
    for kyoku in 0..16u64 {
        let wind = winds[(kyoku / 4) as usize];
        let number = kyoku % 4 + 1;
        assert_eq!(round_label_string(kyoku, 0), format!("{wind} {number}"));
        for honba in [1u64, 2, 9, 10, 123, u64::MAX] {
            assert_eq!(round_label_string(kyoku, honba), format!("{wind} {number}-{honba}"));
        }
    }
    assert_eq!(round_label_string(15, 0), "North 4");
}

#[test]
fn round_label_needs_both_arguments() {
    assert_eq!(kyoku_to_string(&Args::new()), Err(failure("kyoku")));
    assert_eq!(kyoku_to_string(&unsigned(&[("honba", 1)])), Err(failure("kyoku")));
    assert_eq!(kyoku_to_string(&unsigned(&[("kyoku", 1)])), Err(failure("honba")));
    assert_eq!(kyoku_to_string(&unsigned(&[("kyoku", 99)])), Err(failure("honba")));
}

#[test]
fn round_label_needs_unsigned_integers() {
    let mut args = unsigned(&[("honba", 0)]);
    args.insert("kyoku".to_owned(), text("1"));
    assert_eq!(kyoku_to_string(&args), Err(failure("kyoku")));
    let mut args = unsigned(&[("honba", 0)]);
    args.insert("kyoku".to_owned(), ArgValue::Number(Number::Signed(-1)));
    assert_eq!(kyoku_to_string(&args), Err(failure("kyoku")));
    let mut args = unsigned(&[("kyoku", 0)]);
    args.insert("honba".to_owned(), ArgValue::Number(Number::Float(1.5f64.to_bits())));
    assert_eq!(kyoku_to_string(&args), Err(failure("honba")));
    let mut args = unsigned(&[("kyoku", 0)]);
    args.insert("honba".to_owned(), ArgValue::Bool(false));
    assert_eq!(kyoku_to_string(&args), Err(failure("honba")));
}

#[test]
fn format_error_names_the_argument() {
    assert_eq!(failure("kyoku").message(), "missing or invalid argument `kyoku`");
    assert_eq!(failure("player_id").message(), "missing or invalid argument `player_id`");
}

#[test]
fn seat_label_of_own_seat() {
    for seat in 0..4u64 {
        assert_eq!(
            position_string(&unsigned(&[("player_id", seat), ("target", seat)])),
            Ok(text("Self👇"))
        );
    }
    assert_eq!(seat_label_string(u64::MAX, u64::MAX), "Self👇");
}

#[test]
fn seat_labels_around_the_table() {
    assert_eq!(position_string(&unsigned(&[("player_id", 1), ("target", 0)])), Ok(text("Shimocha👉")));
    assert_eq!(position_string(&unsigned(&[("player_id", 2), ("target", 0)])), Ok(text("Toimen👆")));
    assert_eq!(position_string(&unsigned(&[("player_id", 3), ("target", 0)])), Ok(text("Kamicha👈")));
    assert_eq!(position_string(&unsigned(&[("player_id", 0), ("target", 1)])), Ok(text("Kamicha👈")));
    assert_eq!(position_string(&unsigned(&[("player_id", 0), ("target", 2)])), Ok(text("Toimen👆")));
    assert_eq!(position_string(&unsigned(&[("player_id", 0), ("target", 3)])), Ok(text("Shimocha👉")));
}

#[test]
fn seat_label_follows_the_formula() {
    let labels = ["Self👇", "Shimocha👉", "Toimen👆", "Kamicha👈"];
    for player_id in 0..12u64 {
        for target in 0..12u64 {
            let offset = ((player_id + 4 - target % 4) % 4) as usize;
            assert_eq!(seat_label_string(player_id, target), labels[offset]);
        }
    }
}

#[test]
fn seat_label_has_period_four() {
    for player_id in 0..8u64 {
        for target in 0..8u64 {
            let label = seat_label_string(player_id, target);
            assert_eq!(seat_label_string(player_id + 4, target), label);
            assert_eq!(seat_label_string(player_id, target + 4), label);
            assert_eq!(seat_label_string(player_id + 4, target + 8), label);
            assert_eq!(seat_label_string(player_id + 1, target + 1), label);
        }
    }
    assert_eq!(seat_label_string(u64::MAX, 3), "Self👇");
    assert_eq!(seat_label_string(0, u64::MAX), "Shimocha👉");
}

#[test]
fn seat_label_needs_both_arguments() {
    assert_eq!(position_string(&Args::new()), Err(failure("player_id")));
    assert_eq!(position_string(&unsigned(&[("target", 1)])), Err(failure("player_id")));
    assert_eq!(position_string(&unsigned(&[("player_id", 1)])), Err(failure("target")));
    let mut args = unsigned(&[("player_id", 1)]);
    args.insert("target".to_owned(), text("east"));
    assert_eq!(position_string(&args), Err(failure("target")));
}

#[test]
fn rounded_number_as_text() {
    assert_eq!(rounded(3.14159, 2, false), text("3.14"));
}

#[test]
fn rounded_number_in_halves() {
    assert_eq!(rounded(3.1, 2, true), ArgValue::List(vec!["3".to_owned(), "10".to_owned()]));
}

#[test]
fn rounded_number_edge_cases() {
    assert_eq!(rounded(2.75, 0, true), ArgValue::List(vec!["3".to_owned()]));
    assert_eq!(rounded(-0.125, 1, true), ArgValue::List(vec!["-0".to_owned(), "1".to_owned()]));
    assert_eq!(rounded(1.0, 5, false), text("1.00000"));
    assert_eq!(rounded(f64::INFINITY, 2, true), ArgValue::List(vec!["inf".to_owned()]));
}

#[test]
fn rounded_number_request_defaults() {
    let mut args = Args::new();
    args.insert("num".to_owned(), ArgValue::Number(Number::Float(0.5f64.to_bits())));
    assert_eq!(
        pretty_round_request(&args),
        Ok(RoundRequest { num: Number::Float(0.5f64.to_bits()), prec: 5, split: false })
    );
    args.insert("prec".to_owned(), text("2"));
    args.insert("split".to_owned(), ArgValue::Number(Number::Unsigned(1)));
    assert_eq!(
        pretty_round_request(&args),
        Ok(RoundRequest { num: Number::Float(0.5f64.to_bits()), prec: 5, split: false })
    );
    args.insert("prec".to_owned(), ArgValue::Number(Number::Unsigned(0)));
    args.insert("split".to_owned(), ArgValue::Bool(true));
    assert_eq!(
        pretty_round_request(&args),
        Ok(RoundRequest { num: Number::Float(0.5f64.to_bits()), prec: 0, split: true })
    );
}

#[test]
fn rounded_number_takes_any_number() {
    let mut args = Args::new();
    args.insert("num".to_owned(), ArgValue::Number(Number::Unsigned(3)));
    assert_eq!(
        pretty_round_request(&args),
        Ok(RoundRequest { num: Number::Unsigned(3), prec: 5, split: false })
    );
    args.insert("num".to_owned(), ArgValue::Number(Number::Signed(-3)));
    assert_eq!(
        pretty_round_request(&args),
        Ok(RoundRequest { num: Number::Signed(-3), prec: 5, split: false })
    );
}

#[test]
fn rounded_number_needs_a_number() {
    assert_eq!(pretty_round_request(&Args::new()), Err(failure("num")));
    let mut args = unsigned(&[("prec", 2)]);
    args.insert("num".to_owned(), text("3.1"));
    assert_eq!(pretty_round_request(&args), Err(failure("num")));
    args.insert("num".to_owned(), ArgValue::Bool(true));
    assert_eq!(pretty_round_request(&args), Err(failure("num")));
}

#[test]
fn rounded_number_value_of_text() {
    assert_eq!(pretty_round_value("3.14", false), text("3.14"));
    assert_eq!(pretty_round_value("3.14", true), ArgValue::List(vec!["3".to_owned(), "14".to_owned()]));
    assert_eq!(pretty_round_value("NaN", true), ArgValue::List(vec!["NaN".to_owned()]));
    assert_eq!(pretty_round_value("", true), ArgValue::List(vec![String::new()]));
}
