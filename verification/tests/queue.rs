use blockfall::parsing::{amount_of, decimal, Capture};
use blockfall::{Parsing, Pattern, Queue, Tetromino};
use std::collections::VecDeque;

#[test]
fn pattern_size_is_the_sum_of_the_weights() {
    assert_eq!(Pattern::default().size(), 8);
    assert_eq!(Pattern::default().draw_count, 8);
    let pattern = Pattern { tetromino_set: [4, 0, 1, 0, 0, 2, 0, 0], draw_count: 7 };
    assert_eq!(pattern.size(), 7);
}

#[test]
fn draw_at_picks_by_cumulative_weight() {
    let start = Pattern { tetromino_set: [2, 0, 1, 0, 0, 3, 0, 0], draw_count: 6 };
    let expected = [
        Tetromino::I,
        Tetromino::I,
        Tetromino::T,
        Tetromino::B,
        Tetromino::B,
        Tetromino::B,
    ];
    for (bar, variant) in expected.iter().enumerate() {
        let mut pattern = start.clone();
        assert_eq!(pattern.draw_at(bar), Some(*variant));
        assert_eq!(pattern.size(), 5);
        assert_eq!(pattern.draw_count, 5);
        assert_eq!(pattern.tetromino_set[variant.index()], start.tetromino_set[variant.index()] - 1);
    }
    let mut pattern = start.clone();
    assert_eq!(pattern.draw_at(6), None);
    assert_eq!(pattern, start);
}

#[test]
fn draw_empties_the_bag() {
    let mut pattern = Pattern::default();
    let mut seen = [false; 8];
    for left in (0..8).rev() {
        let variant = pattern.draw().unwrap();
        assert!(!seen[variant.index()]);
        seen[variant.index()] = true;
        assert_eq!(pattern.size(), left);
    }
    assert_eq!(pattern.draw(), None);
    assert_eq!(pattern.tetromino_set, [0; 8]);
}

#[test]
fn draw_gives_what_the_bag_holds() {
    let mut pattern = Pattern { tetromino_set: [0, 0, 0, 0, 0, 0, 0, 5], draw_count: 5 };
    for _ in 0..5 {
        assert_eq!(pattern.draw(), Some(Tetromino::F));
    }
    assert_eq!(pattern.draw(), None);
}

#[test]
fn queue_goes_on_after_its_last_bag() {
    let mut tetromino_set = [0; 8];
    tetromino_set[Tetromino::S.index()] = 1;
    let mut queue = Queue {
        sequence: VecDeque::from(vec![Pattern { tetromino_set, draw_count: 1 }]),
        hold: Some(Tetromino::L),
        can_swap: true,
    };
    assert_eq!(queue.next(), Tetromino::S);
    assert_eq!(queue.sequence.len(), 1);
    assert_eq!(queue.sequence[0].size(), 0);

    let second = queue.next();
    assert!(second.index() < 8);
    assert_eq!(queue.sequence.len(), 1);
    assert_eq!(queue.sequence[0].size(), 7);
    assert_eq!(queue.sequence[0].tetromino_set[second.index()], 0);
    assert_eq!(queue.hold, Some(Tetromino::L));
    assert!(queue.can_swap);
}

#[test]
fn queue_draws_its_bags_in_order() {
    let bag = |variant: Tetromino, count: usize| {
        let mut tetromino_set = [0; 8];
        tetromino_set[variant.index()] = count;
        Pattern { tetromino_set, draw_count: count }
    };
    let mut queue = Queue {
        sequence: VecDeque::from(vec![bag(Tetromino::I, 2), bag(Tetromino::O, 0), bag(Tetromino::D, 1)]),
        hold: None,
        can_swap: false,
    };
    assert_eq!(queue.next(), Tetromino::I);
    assert_eq!(queue.next(), Tetromino::I);
    assert_eq!(queue.next(), Tetromino::D);
    assert_eq!(queue.sequence.len(), 1);
}

#[test]
fn empty_queue_draws_from_a_fresh_bag() {
    let mut queue = Queue::default();
    let mut seen = [false; 8];
    for _ in 0..8 {
        let variant = queue.next();
        assert!(!seen[variant.index()]);
        seen[variant.index()] = true;
    }
    assert_eq!(seen, [true; 8]);
    assert!(queue.next().index() < 8);
}

#[test]
fn tetromino_index_round_trip() {
    for index in 0..8 {
        assert_eq!(Tetromino::from(index).index(), index);
    }
    assert_eq!(Tetromino::from(3), Tetromino::L);
}

#[test]
fn tetromino_parse_reads_one_letter() {
    assert_eq!(Tetromino::parse("I"), Ok(Tetromino::I));
    assert_eq!(Tetromino::parse('F'), Ok(Tetromino::F));
    assert_eq!(Tetromino::parse(String::from("S")), Ok(Tetromino::S));
    assert_eq!(Tetromino::parse("x"), Err(String::from("Invalid tetromino character 'x'")));
    assert_eq!(Tetromino::parse("IO"), Err(String::from("Invalid tetromino character 'IO'")));
    assert_eq!(Tetromino::parse(""), Err(String::from("Invalid tetromino character ''")));
    assert_eq!(Tetromino::parse("i"), Err(String::from("Invalid tetromino character 'i'")));
    assert_eq!(Tetromino::from_letter('B'), Some(Tetromino::B));
    assert_eq!(Tetromino::from_letter('b'), None);
}

#[test]
fn amount_of_reads_decimal_digits() {
    assert_eq!(amount_of("0"), 0);
    assert_eq!(amount_of("7"), 7);
    assert_eq!(amount_of("0042"), 42);
    assert_eq!(amount_of("+13"), 13);
    assert_eq!(amount_of(""), 1);
    assert_eq!(amount_of("+"), 1);
    assert_eq!(amount_of("12a"), 1);
    assert_eq!(amount_of("-3"), 1);
    assert_eq!(amount_of(&usize::MAX.to_string()), usize::MAX);
    assert_eq!(amount_of("99999999999999999999999999"), 1);
    assert_eq!(amount_of("18446744073709551616"), "18446744073709551616".parse().unwrap_or(1));
}

#[test]
fn decimal_writes_digits() {
    assert_eq!(decimal(0), "0");
    assert_eq!(decimal(9), "9");
    assert_eq!(decimal(10), "10");
    assert_eq!(decimal(4071), "4071");
    assert_eq!(decimal(usize::MAX), usize::MAX.to_string());
}

#[test]
fn pattern_parse_reads_a_set() {
    let pattern = Pattern::parse("[IIII]p4").unwrap();
    assert_eq!(pattern.tetromino_set, [4, 0, 0, 0, 0, 0, 0, 0]);
    assert_eq!(pattern.draw_count, 4);

    let pattern = Pattern::parse("[TOT]").unwrap();
    assert_eq!(pattern.tetromino_set, [0, 1, 2, 0, 0, 0, 0, 0]);
    assert_eq!(pattern.draw_count, 1);

    let pattern = Pattern::parse("[FDBSLTOI]p08").unwrap();
    assert_eq!(pattern.tetromino_set, [1; 8]);
    assert_eq!(pattern.draw_count, 8);

    let pattern = Pattern::parse("[L]p0").unwrap();
    assert_eq!(pattern.draw_count, 0);
    assert_eq!(pattern.size(), 1);
}

#[test]
fn pattern_parse_reads_the_star() {
    let pattern = Pattern::parse("*").unwrap();
    assert_eq!(pattern.tetromino_set, [1; 8]);
    assert_eq!(pattern.draw_count, 1);
    let pattern = Pattern::parse("*p8").unwrap();
    assert_eq!(pattern.tetromino_set, [1; 8]);
    assert_eq!(pattern.draw_count, 8);
}

#[test]
fn pattern_parse_refuses() {
    let too_many = String::from(
        "Amount may not be greater than the number of tetrominos in the tetromino set!",
    );
    assert_eq!(Pattern::parse("*p9"), Err(too_many.clone()));
    assert_eq!(Pattern::parse("[IO]p3"), Err(too_many));
    assert_eq!(Pattern::parse("IO"), Err(String::from("Invalid pattern format!")));
    assert_eq!(Pattern::parse("[]"), Err(String::from("Invalid pattern format!")));
    assert_eq!(Pattern::parse("[I]p"), Err(String::from("Invalid pattern format!")));
    assert_eq!(Pattern::parse(""), Err(String::from("Invalid pattern format!")));
    assert_eq!(Pattern::parse("[IxO]"), Err(String::from("Invalid tetromino character 'x'")));
    assert_eq!(Pattern::parse("[Iä]"), Err(String::from("Invalid tetromino character 'ä'")));
    assert_eq!(Pattern::parse("[I]][O]"), Err(String::from("Invalid tetromino character ']'")));
}

#[test]
fn pattern_from_captures_follows_the_groups() {
    let found = |text: &str| Capture::Found(String::from(text));
    let invalid = Pattern::from_captures(&Capture::Invalid, &Capture::Absent, &Capture::Absent);
    assert_eq!(invalid, Err(String::from("Invalid regex pattern!")));
    let unmatched = Pattern::from_captures(&Capture::Unmatched, &found("[I]"), &Capture::Absent);
    assert_eq!(unmatched, Err(String::from("Invalid pattern format!")));
    let no_set = Pattern::from_captures(&Capture::Absent, &Capture::Absent, &found("1"));
    assert_eq!(no_set, Err(String::from("Invalid tetromino set!")));
    let short = Pattern::from_captures(&Capture::Absent, &found("["), &Capture::Absent);
    assert_eq!(short, Err(String::from("Invalid tetromino set!")));
    let star = Pattern::from_captures(&found("*"), &found("[I]"), &found("3")).unwrap();
    assert_eq!(star.tetromino_set, [1; 8]);
    assert_eq!(star.draw_count, 3);
    let set = Pattern::from_captures(&Capture::Absent, &found("[BDB]"), &found("2")).unwrap();
    assert_eq!(set.tetromino_set, [0, 0, 0, 0, 0, 2, 1, 0]);
    assert_eq!(set.draw_count, 2);
}

#[test]
fn queue_parse_reads_hold_and_bags() {
    let queue = Queue::parse("T:[IO]p2*p3[S]").unwrap();
    assert_eq!(queue.hold, Some(Tetromino::T));
    assert!(queue.can_swap);
    assert_eq!(queue.sequence.len(), 3);
    assert_eq!(queue.sequence[0], Pattern::parse("[IO]p2").unwrap());
    assert_eq!(queue.sequence[1], Pattern::parse("*p3").unwrap());
    assert_eq!(queue.sequence[2], Pattern::parse("[S]").unwrap());

    let queue = Queue::parse("[IIII]p4").unwrap();
    assert_eq!(queue.hold, None);
    assert_eq!(queue.sequence.len(), 1);
    assert_eq!(queue.sequence[0].tetromino_set, [4, 0, 0, 0, 0, 0, 0, 0]);
}

#[test]
fn queue_parse_refuses() {
    assert_eq!(Queue::parse("nothing"), Err(String::from("Invalid queue format!")));
    assert_eq!(Queue::parse(""), Err(String::from("Invalid queue format!")));
    assert_eq!(
        Queue::parse("x:[I]"),
        Err(String::from("Invalid tetromino character 'x' at hold!"))
    );
    assert_eq!(
        Queue::parse("[I][Oz]"),
        Err(String::from("Invalid tetromino character 'z' at pattern 2!"))
    );
    assert_eq!(
        Queue::parse("*[I]p2"),
        Err(String::from(
            "Amount may not be greater than the number of tetrominos in the tetromino set! at pattern 2!"
        ))
    );
}

#[test]
fn queue_from_captures_follows_the_groups() {
    let found = |text: &str| Capture::Found(String::from(text));
    let bags = Some(vec![Some(String::from("[I]")), None, Some(String::from("*p2"))]);
    let queue = Queue::from_captures(&Capture::Absent, &bags).unwrap();
    assert_eq!(queue.hold, None);
    assert_eq!(queue.sequence.len(), 2);
    assert_eq!(queue.sequence[1].draw_count, 2);
    let queue = Queue::from_captures(&found("L"), &Some(Vec::new())).unwrap();
    assert_eq!(queue.hold, Some(Tetromino::L));
    assert!(queue.sequence.is_empty());
    assert_eq!(
        Queue::from_captures(&Capture::Invalid, &bags),
        Err(String::from("Invalid regex pattern!"))
    );
    assert_eq!(
        Queue::from_captures(&Capture::Absent, &None),
        Err(String::from("Invalid regex pattern!"))
    );
    assert_eq!(
        Queue::from_captures(&found("é"), &bags),
        Err(String::from("Invalid tetromino character 'é' at hold!"))
    );
    let broken = Some(vec![None, Some(String::from("[I]")), Some(String::from("[Q]"))]);
    assert_eq!(
        Queue::from_captures(&Capture::Absent, &broken),
        Err(String::from("Invalid tetromino character 'Q' at pattern 3!"))
    );
}
