//! Ratings from zero to ten, shown as stars.

use vstd::prelude::*;
use crate::text::{decimal, law_decimal_parses_back, parse_decimal, parse_unsigned, push_char, push_decimal};

verus! {

/// The star that `to_stars` repeats.
pub const STAR: &'static str = "⭐";

/// The largest rating.
pub const MAX_RATING: u8 = 10;

/// Why a rating was refused.
#[derive(Debug, Clone, Copy, PartialEq, Eq, Structural)]
pub enum RatingError {
    /// The value lies above ten.
    OutOfRange,
    /// The text is not an unsigned 8-bit number.
    NotANumber,
}

impl RatingError {
    /// The message shown for the error.
    pub fn message(&self) -> (r: &'static str)
        ensures
            r@ == rating_error_message(*self),
    {
        match self {
            RatingError::OutOfRange => "El rating debe ser entre 0 y 10",
            RatingError::NotANumber => "El rating solo puede ser un numero.",
        }
    }
}

pub open spec fn rating_error_message(e: RatingError) -> Seq<char> {
    match e {
        RatingError::OutOfRange => "El rating debe ser entre 0 y 10"@,
        RatingError::NotANumber => "El rating solo puede ser un numero."@,
    }
}

/// A rating of a movie.
#[derive(Debug, Clone, Copy, PartialEq, Eq, Structural)]
pub struct Rating(u8);

impl View for Rating {
    type V = u8;

    closed spec fn view(&self) -> u8 {
        self.0
    }
}

/// `n` stars.
pub open spec fn stars(n: nat) -> Seq<char> {
    Seq::new(n, |i: int| '⭐')
}

/// What `Rating::new` answers for a value.
pub open spec fn spec_new_rating(value: u8) -> Result<u8, RatingError> {
    if value > 10 {
        Err(RatingError::OutOfRange)
    } else {
        Ok(value)
    }
}

/// What `Rating::parse` answers for a text: a number that does not fit in a
/// `u8` is not a number; else the number goes through `Rating::new`.
pub open spec fn spec_parse_rating(s: Seq<char>) -> Result<u8, RatingError> {
    match parse_unsigned(s, 255) {
        Some(v) => spec_new_rating(v as u8),
        None => Err(RatingError::NotANumber),
    }
}

pub open spec fn rating_result_view(r: Result<Rating, RatingError>) -> Result<u8, RatingError> {
    match r {
        Ok(v) => Ok(v@),
        Err(e) => Err(e),
    }
}

impl Rating {
    /// A rating of `rating`, refused above ten.
    pub fn new(rating: u8) -> (r: Result<Rating, RatingError>)
        ensures
            rating_result_view(r) == spec_new_rating(rating),
    {
        if rating > MAX_RATING {
            return Err(RatingError::OutOfRange);
        }
        Ok(Rating(rating))
    }

    /// A rating as it was stored, whatever its value.
    pub fn from_stored(value: u8) -> (r: Rating)
        ensures
            r@ == value,
    {
        Rating(value)
    }

    /// The value of the rating.
    pub fn value(&self) -> (r: u8)
        ensures
            r == self@,
    {
        self.0
    }

    /// One star for each point of the rating.
    pub fn to_stars(&self) -> (r: String)
        ensures
            r@ == stars(self@ as nat),
    {
        let mut s = String::new();
        let mut i: u8 = 0;
        while i < self.0
            invariant
                i <= self@,
                s@ == stars(i as nat),
            decreases self@ - i,
        {
            push_char(&mut s, '⭐');
            i = i + 1;
            assert(s@ =~= stars(i as nat));
        }
        s
    }

    /// The rating as it is displayed: its value, then ` / 10`.
    pub fn to_display_string(&self) -> (r: String)
        ensures
            r@ == decimal(self@ as nat) + " / 10"@,
    {
        let mut s = String::new();
        push_decimal(&mut s, self.0 as u64);
        s.append(" / 10");
        assert(s@ =~= decimal(self@ as nat) + " / 10"@);
        s
    }

    /// Reads a rating from text: an unsigned 8-bit number, at most ten.
    pub fn parse(s: &str) -> (r: Result<Rating, RatingError>)
        ensures
            rating_result_view(r) == spec_parse_rating(s@),
    {
        match parse_decimal(s, 255) {
            Some(v) => Rating::new(v as u8),
            None => Err(RatingError::NotANumber),
        }
    }
}

impl std::str::FromStr for Rating {
    type Err = RatingError;

    fn from_str(s: &str) -> (r: Result<Rating, RatingError>)
        ensures
            rating_result_view(r) == spec_parse_rating(s@),
    {
        Rating::parse(s)
    }
}

/// A value is accepted as a rating exactly when it is at most ten, and the
/// rating made from it has that value.
pub proof fn law_new_accepts_zero_to_ten(value: u8)
    ensures
        (spec_new_rating(value) is Ok) <==> value <= 10,
        value <= 10 ==> spec_new_rating(value) == Ok::<u8, RatingError>(value),
{
}

/// The text of a rating's value reads back as that rating: the decimal
/// numeral of a value up to ten parses to the same rating.
pub proof fn law_rating_text_reads_back(value: u8)
    requires
        value <= 10,
    ensures
        spec_parse_rating(decimal(value as nat)) == Ok::<u8, RatingError>(value),
{
    law_decimal_parses_back(value as nat, 255);
}

/// A rating shows one star per point.
pub proof fn law_stars_count_the_value(value: u8)
    ensures
        stars(value as nat).len() == value as nat,
{
}

} // verus!
