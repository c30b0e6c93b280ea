//! The choices offered when a device is assigned to a seat: a new seat with
//! the next free number, then every existing seat.
use vstd::prelude::*;

use crate::text::{
    decimal_text, digit_char, digits_of, digits_value, has_prefix, i32_text, is_digit,
    parse_i32, parse_i32_text, strip_prefix, strip_prefix_text,
};
use crate::utils::Seat;

verus! {

/// One entry of the seat choice: a seat label, the name shown for it, and
/// whether choosing it creates the seat.
pub struct SeatOption {
    pub id: String,
    pub name: String,
    pub is_new: bool,
}

/// The number in a seat label of the form `seat<number>`.
pub open spec fn seat_number(id: Seq<char>) -> Option<i32> {
    match strip_prefix_text(id, "seat"@) {
        Some(rest) => parse_i32_text(rest),
        None => None,
    }
}

/// The largest seat number among the first labels, if any has one.
pub open spec fn max_seat_number(seats: Seq<Seat>) -> Option<i32>
    decreases seats.len(),
{
    if seats.len() == 0 {
        None
    } else {
        let rest = max_seat_number(seats.drop_last());
        match seat_number(seats.last().path.id@) {
            Some(n) => match rest {
                Some(m) => Some(if n > m { n } else { m }),
                None => Some(n),
            },
            None => rest,
        }
    }
}

/// The largest seat number, or zero when no label has one.
pub open spec fn highest_number(seats: Seq<Seat>) -> i32 {
    match max_seat_number(seats) {
        Some(m) => m,
        None => 0,
    }
}

/// The label offered for a new seat: one past the highest seat number.
pub open spec fn new_seat_id(seats: Seq<Seat>) -> Seq<char> {
    "seat"@ + decimal_text(highest_number(seats) + 1)
}

/// The choices for a seat list: first a new seat, then each seat in order.
pub open spec fn options_describe(options: Seq<SeatOption>, seats: Seq<Seat>) -> bool {
    &&& options.len() == seats.len() + 1
    &&& options[0].id@ == new_seat_id(seats)
    &&& options[0].name@ == "Create new seat"@
    &&& options[0].is_new
    &&& forall|i: int|
        0 <= i < seats.len() ==> {
            &&& (#[trigger] options[i + 1]).id@ == seats[i].path.id@
            &&& options[i + 1].name@ == seats[i].name@
            &&& !options[i + 1].is_new
        }
}

/// The number in a seat label of the form `seat<number>`.
pub fn seat_number_of(id: &str) -> (r: Option<i32>)
    ensures
        r == seat_number(id@),
{
    match strip_prefix(id, "seat") {
        Some(rest) => parse_i32(rest.as_str()),
        None => None,
    }
}

/// The largest seat number among the seats, or zero when no label has one.
pub fn highest_seat_number(seats: &Vec<Seat>) -> (r: i32)
    ensures
        r == highest_number(seats@),
{
    let mut best: Option<i32> = None;
    let mut i: usize = 0;
    while i < seats.len()
        invariant
            i <= seats@.len(),
            best == max_seat_number(seats@.subrange(0, i as int)),
        decreases seats.len() - i,
    {
        let n = seat_number_of(seats[i].path.id());
        proof {
            assert(seats@.subrange(0, i + 1).drop_last() =~= seats@.subrange(0, i as int));
        }
        best = match n {
            Some(n) => match best {
                Some(m) => Some(if n > m { n } else { m }),
                None => Some(n),
            },
            None => best,
        };
        i = i + 1;
    }
    assert(seats@.subrange(0, i as int) =~= seats@);
    match best {
        Some(m) => m,
        None => 0,
    }
}

/// The choices for assigning a device: a new seat numbered one past the
/// highest seat number, then every seat with its shown name.
pub fn build_seat_options(seats: &Vec<Seat>) -> (r: Vec<SeatOption>)
    requires
        highest_number(seats@) < i32::MAX,
    ensures
        options_describe(r@, seats@),
{
    let max_num = highest_seat_number(seats);
    let number = i32_text(max_num + 1);
    let new_id = "seat".to_owned().concat(number.as_str());
    let mut options: Vec<SeatOption> = Vec::new();
    options.push(SeatOption { id: new_id, name: "Create new seat".to_owned(), is_new: true });
    let mut i: usize = 0;
    while i < seats.len()
        invariant
            i <= seats@.len(),
            options@.len() == i + 1,
            options@[0].id@ == new_seat_id(seats@),
            options@[0].name@ == "Create new seat"@,
            options@[0].is_new,
            forall|j: int|
                0 <= j < i ==> {
                    &&& (#[trigger] options@[j + 1]).id@ == seats@[j].path.id@
                    &&& options@[j + 1].name@ == seats@[j].name@
                    &&& !options@[j + 1].is_new
                },
        decreases seats.len() - i,
    {
        let seat = &seats[i];
        options.push(
            SeatOption { id: seat.path.id.clone(), name: seat.name.clone(), is_new: false },
        );
        i = i + 1;
    }
    options
}

/// A digit character stands for its value.
proof fn lemma_digit_char(d: int)
    requires
        0 <= d < 10,
    ensures
        digit_char(d) as int == d + 48,
        is_digit(digit_char(d)),
{
    assert(((d + 48) as u32) as int == d + 48);
}

/// The digits of a number read back give the number.
proof fn lemma_digits_value(n: nat)
    ensures
        digits_of(n).len() > 0,
        forall|i: int| 0 <= i < digits_of(n).len() ==> is_digit(#[trigger] digits_of(n)[i]),
        digits_value(digits_of(n)) == n,
        is_digit(digits_of(n)[0]),
    decreases n,
{
    if n < 10 {
        lemma_digit_char(n as int);
        assert(digits_of(n) =~= seq![digit_char(n as int)]);
        assert(digits_of(n).drop_last() =~= Seq::<char>::empty());
        assert(digits_value(Seq::<char>::empty()) == 0);
        assert(digits_value(digits_of(n)) == digits_value(digits_of(n).drop_last()) * 10 + (
        digits_of(n).last() as int - 48));
    } else {
        lemma_digits_value(n / 10);
        lemma_digit_char((n % 10) as int);
        let s = digits_of(n);
        assert(s.drop_last() =~= digits_of(n / 10));
        assert forall|i: int| 0 <= i < s.len() implies is_digit(#[trigger] s[i]) by {
            if i < s.len() - 1 {
                assert(s[i] == digits_of(n / 10)[i]);
            }
        }
        assert(s[0] == digits_of(n / 10)[0]);
        assert(s.last() == digit_char((n % 10) as int));
        assert(digits_value(s) == digits_value(s.drop_last()) * 10 + (s.last() as int - 48));
        assert((n / 10) * 10 + n % 10 == n);
    }
}

/// Reading back the decimal text of an `i32` gives the number.
proof fn lemma_parse_decimal(n: i32)
    ensures
        parse_i32_text(decimal_text(n as int)) == Some(n),
{
    if n < 0 {
        let m = (-(n as int)) as nat;
        lemma_digits_value(m);
        let s = decimal_text(n as int);
        assert(s.drop_first() =~= digits_of(m));
    } else {
        lemma_digits_value(n as nat);
    }
}

/// The label offered for a new seat is the label of no existing seat.
pub proof fn lemma_new_seat_id_is_fresh(seats: Seq<Seat>, i: int)
    requires
        highest_number(seats) < i32::MAX,
        0 <= i < seats.len(),
    ensures
        seats[i].path.id@ != new_seat_id(seats),
{
    lemma_max_bounds(seats, i);
    let k = highest_number(seats) + 1;
    lemma_parse_decimal(k as i32);
    let id = new_seat_id(seats);
    assert(id.subrange(0, 4) =~= "seat"@) by {
        reveal_strlit("seat");
    }
    assert(has_prefix(id, "seat"@)) by {
        reveal_strlit("seat");
    }
    assert(id.subrange(4, id.len() as int) =~= decimal_text(k)) by {
        reveal_strlit("seat");
    }
    assert(seat_number(id) == Some(k as i32)) by {
        reveal_strlit("seat");
    }
}

/// Every seat number is at most the highest one.
proof fn lemma_max_bounds(seats: Seq<Seat>, i: int)
    requires
        0 <= i < seats.len(),
    ensures
        seat_number(seats[i].path.id@) matches Some(n) ==> (max_seat_number(seats) matches Some(
            m,
        ) && n <= m),
        seat_number(seats[i].path.id@) matches Some(n) ==> n <= highest_number(seats),
    decreases seats.len(),
{
    if i < seats.len() - 1 {
        lemma_max_bounds(seats.drop_last(), i);
        assert(seats.drop_last()[i] == seats[i]);
    }
}

} // verus!
