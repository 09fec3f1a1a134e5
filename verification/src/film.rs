//! Watched films: a title, a rating, and the year and month of watching.

use crate::text::{lowercased, owned, same_text, to_lowercase, trim, trimmed};
use vstd::prelude::*;

verus! {

/// How a film was liked, from worst to best.
#[derive(Clone, Copy, Debug, PartialEq, Eq, Structural)]
pub enum Rating {
    VeryBad,
    Bad,
    Meh,
    Good,
    VeryGood,
    Goat,
}

/// Why a text is no rating.
#[derive(Debug, PartialEq, Eq)]
pub enum TryFromRatingError {
    /// Nothing but white space.
    EmptyString,
    /// The text, as it was given, names no rating.
    InvalidRating(String),
}

/// The mathematical content of a [`TryFromRatingError`].
pub ghost enum TryFromRatingErrorView {
    EmptyString,
    InvalidRating(Seq<char>),
}

impl View for TryFromRatingError {
    type V = TryFromRatingErrorView;

    open spec fn view(&self) -> TryFromRatingErrorView {
        match self {
            TryFromRatingError::EmptyString => TryFromRatingErrorView::EmptyString,
            TryFromRatingError::InvalidRating(text) => TryFromRatingErrorView::InvalidRating(
                text@,
            ),
        }
    }
}

impl Rating {
    /// The name of the rating, in lower case.
    pub open spec fn name(self) -> Seq<char> {
        match self {
            Rating::VeryBad => "very bad"@,
            Rating::Bad => "bad"@,
            Rating::Meh => "meh"@,
            Rating::Good => "good"@,
            Rating::VeryGood => "very good"@,
            Rating::Goat => "goat"@,
        }
    }

    /// The rating whose name is `name`.
    pub open spec fn named(name: Seq<char>) -> Option<Rating> {
        if name == Rating::VeryBad.name() {
            Some(Rating::VeryBad)
        } else if name == Rating::Bad.name() {
            Some(Rating::Bad)
        } else if name == Rating::Meh.name() {
            Some(Rating::Meh)
        } else if name == Rating::Good.name() {
            Some(Rating::Good)
        } else if name == Rating::VeryGood.name() {
            Some(Rating::VeryGood)
        } else if name == Rating::Goat.name() {
            Some(Rating::Goat)
        } else {
            None
        }
    }

    /// The rating that `value` stands for: its name may be written in any case
    /// and between white space.
    pub open spec fn parsed(value: Seq<char>) -> Result<Rating, TryFromRatingErrorView> {
        let name = lowercased(trimmed(value));
        if name.len() == 0 {
            Err(TryFromRatingErrorView::EmptyString)
        } else {
            match Rating::named(name) {
                Some(rating) => Ok(rating),
                None => Err(TryFromRatingErrorView::InvalidRating(value)),
            }
        }
    }

    /// Reads a rating.
    pub fn try_from(value: &str) -> (r: Result<Rating, TryFromRatingError>)
        ensures
            match r {
                Ok(rating) => Rating::parsed(value@) == Ok::<Rating, TryFromRatingErrorView>(
                    rating,
                ),
                Err(error) => Rating::parsed(value@) == Err::<Rating, TryFromRatingErrorView>(
                    error@,
                ),
            },
    {
        let lowered = to_lowercase(trim(value));
        let name = lowered.as_str();
        if name.is_empty() {
            Err(TryFromRatingError::EmptyString)
        } else if same_text(name, "very bad") {
            Ok(Rating::VeryBad)
        } else if same_text(name, "bad") {
            Ok(Rating::Bad)
        } else if same_text(name, "meh") {
            Ok(Rating::Meh)
        } else if same_text(name, "good") {
            Ok(Rating::Good)
        } else if same_text(name, "very good") {
            Ok(Rating::VeryGood)
        } else if same_text(name, "goat") {
            Ok(Rating::Goat)
        } else {
            Err(TryFromRatingError::InvalidRating(owned(value)))
        }
    }

    /// The name of the rating, in lower case.
    pub fn to_string(&self) -> (r: String)
        ensures
            r@ == self.name(),
    {
        match self {
            Rating::VeryBad => owned("very bad"),
            Rating::Bad => owned("bad"),
            Rating::Meh => owned("meh"),
            Rating::Good => owned("good"),
            Rating::VeryGood => owned("very good"),
            Rating::Goat => owned("goat"),
        }
    }
}

/// A month of the year, January being 1 and December 12.
#[derive(Clone, Copy, Debug, PartialEq, Eq)]
pub struct MonthOfYear(i8);

/// Why a text is no month.
#[derive(Debug, PartialEq, Eq)]
pub enum TryFromMonthOfYearError {
    /// Nothing but white space.
    EmptyString,
    /// The text, as it was given, names no month.
    InvalidMonth(String),
}

/// The mathematical content of a [`TryFromMonthOfYearError`].
pub ghost enum TryFromMonthOfYearErrorView {
    EmptyString,
    InvalidMonth(Seq<char>),
}

impl View for TryFromMonthOfYearError {
    type V = TryFromMonthOfYearErrorView;

    open spec fn view(&self) -> TryFromMonthOfYearErrorView {
        match self {
            TryFromMonthOfYearError::EmptyString => TryFromMonthOfYearErrorView::EmptyString,
            TryFromMonthOfYearError::InvalidMonth(text) => {
                TryFromMonthOfYearErrorView::InvalidMonth(text@)
            },
        }
    }
}

/// The English name of month `number`, capitalized.
pub open spec fn month_name(number: int) -> Seq<char> {
    if number == 1 {
        "January"@
    } else if number == 2 {
        "February"@
    } else if number == 3 {
        "March"@
    } else if number == 4 {
        "April"@
    } else if number == 5 {
        "May"@
    } else if number == 6 {
        "June"@
    } else if number == 7 {
        "July"@
    } else if number == 8 {
        "August"@
    } else if number == 9 {
        "September"@
    } else if number == 10 {
        "October"@
    } else if number == 11 {
        "November"@
    } else {
        "December"@
    }
}

/// The number of the month whose lower-case name is `name`.
pub open spec fn month_named(name: Seq<char>) -> Option<int> {
    if name == "january"@ {
        Some(1)
    } else if name == "february"@ {
        Some(2)
    } else if name == "march"@ {
        Some(3)
    } else if name == "april"@ {
        Some(4)
    } else if name == "may"@ {
        Some(5)
    } else if name == "june"@ {
        Some(6)
    } else if name == "july"@ {
        Some(7)
    } else if name == "august"@ {
        Some(8)
    } else if name == "september"@ {
        Some(9)
    } else if name == "october"@ {
        Some(10)
    } else if name == "november"@ {
        Some(11)
    } else if name == "december"@ {
        Some(12)
    } else {
        None
    }
}

impl View for MonthOfYear {
    type V = int;

    closed spec fn view(&self) -> int {
        self.0 as int
    }
}

impl MonthOfYear {
    #[verifier::type_invariant]
    spec fn in_range(self) -> bool {
        1 <= self.0 <= 12
    }

    /// The month that `value` stands for: its English name may be written in
    /// any case and between white space.
    pub open spec fn parsed(value: Seq<char>) -> Result<int, TryFromMonthOfYearErrorView> {
        let name = lowercased(trimmed(value));
        if name.len() == 0 {
            Err(TryFromMonthOfYearErrorView::EmptyString)
        } else {
            match month_named(name) {
                Some(number) => Ok(number),
                None => Err(TryFromMonthOfYearErrorView::InvalidMonth(value)),
            }
        }
    }

    /// The month with the given number; `None` unless it is 1 to 12.
    pub fn new(number: i8) -> (r: Option<MonthOfYear>)
        ensures
            r.is_some() == (1 <= number <= 12),
            r matches Some(month) ==> month@ == number,
    {
        if 1 <= number && number <= 12 {
            Some(MonthOfYear(number))
        } else {
            None
        }
    }

    /// The number of the month, 1 to 12.
    pub fn number(&self) -> (r: i8)
        ensures
            r == self@,
            1 <= r <= 12,
    {
        proof {
            use_type_invariant(self);
        }
        self.0
    }

    /// Reads a month.
    pub fn try_from(value: &str) -> (r: Result<MonthOfYear, TryFromMonthOfYearError>)
        ensures
            match r {
                Ok(month) => MonthOfYear::parsed(value@) == Ok::<int, TryFromMonthOfYearErrorView>(
                    month@,
                ),
                Err(error) => MonthOfYear::parsed(value@) == Err::<
                    int,
                    TryFromMonthOfYearErrorView,
                >(error@),
            },
    {
        let lowered = to_lowercase(trim(value));
        let name = lowered.as_str();
        if name.is_empty() {
            Err(TryFromMonthOfYearError::EmptyString)
        } else if same_text(name, "january") {
            Ok(MonthOfYear(1))
        } else if same_text(name, "february") {
            Ok(MonthOfYear(2))
        } else if same_text(name, "march") {
            Ok(MonthOfYear(3))
        } else if same_text(name, "april") {
            Ok(MonthOfYear(4))
        } else if same_text(name, "may") {
            Ok(MonthOfYear(5))
        } else if same_text(name, "june") {
            Ok(MonthOfYear(6))
        } else if same_text(name, "july") {
            Ok(MonthOfYear(7))
        } else if same_text(name, "august") {
            Ok(MonthOfYear(8))
        } else if same_text(name, "september") {
            Ok(MonthOfYear(9))
        } else if same_text(name, "october") {
            Ok(MonthOfYear(10))
        } else if same_text(name, "november") {
            Ok(MonthOfYear(11))
        } else if same_text(name, "december") {
            Ok(MonthOfYear(12))
        } else {
            Err(TryFromMonthOfYearError::InvalidMonth(owned(value)))
        }
    }

    /// The English name of the month, capitalized.
    pub fn to_string(&self) -> (r: String)
        ensures
            r@ == month_name(self@),
    {
        let number = self.number();
        if number == 1 {
            owned("January")
        } else if number == 2 {
            owned("February")
        } else if number == 3 {
            owned("March")
        } else if number == 4 {
            owned("April")
        } else if number == 5 {
            owned("May")
        } else if number == 6 {
            owned("June")
        } else if number == 7 {
            owned("July")
        } else if number == 8 {
            owned("August")
        } else if number == 9 {
            owned("September")
        } else if number == 10 {
            owned("October")
        } else if number == 11 {
            owned("November")
        } else {
            owned("December")
        }
    }
}

/// A film that was watched.
#[derive(Debug, PartialEq, Eq)]
pub struct WatchedFilm {
    pub title: String,
    pub rating: Rating,
    pub year_watched: i16,
    pub month_of_year_watched: MonthOfYear,
}

/// The mathematical content of a [`WatchedFilm`].
pub ghost struct WatchedFilmView {
    pub title: Seq<char>,
    pub rating: Rating,
    pub year_watched: int,
    pub month_of_year_watched: int,
}

impl View for WatchedFilm {
    type V = WatchedFilmView;

    open spec fn view(&self) -> WatchedFilmView {
        WatchedFilmView {
            title: self.title@,
            rating: self.rating,
            year_watched: self.year_watched as int,
            month_of_year_watched: self.month_of_year_watched@,
        }
    }
}

impl DeepView for WatchedFilm {
    type V = WatchedFilmView;

    open spec fn deep_view(&self) -> WatchedFilmView {
        self@
    }
}

impl Clone for WatchedFilm {
    fn clone(&self) -> (r: Self)
        ensures
            r == *self,
    {
        WatchedFilm {
            title: self.title.clone(),
            rating: self.rating,
            year_watched: self.year_watched,
            month_of_year_watched: self.month_of_year_watched,
        }
    }
}

} // verus!
