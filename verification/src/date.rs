use vstd::prelude::*;

use crate::formatting::{Affixes, Display, Formatting, TextCase};
use crate::primitives::Boolean;
use crate::taxonomy::Variable;

verus! {

/// Formats a date.
#[derive(Debug, PartialEq, Eq, Hash)]
pub struct Date {
    /// The date to format.
    pub variable: Variable,
    /// How the localized date should be formatted.
    pub form: Option<DateForm>,
    /// Which parts of the localized date should be included.
    pub parts: Option<DateParts>,
    /// Override the default date parts. Also specifies the order of the parts
    /// if `form` is `None`.
    pub date_part: Vec<DatePart>,
    /// Override formatting style.
    pub formatting: Formatting,
    /// Add prefix and suffix. Ignored when this defines a localized date format.
    pub affixes: Affixes,
    /// Delimit pieces of the output. Ignored when this defines a localized date format.
    pub delimiter: Option<String>,
    /// Set layout level.
    pub display: Option<Display>,
    /// Transform the text case.
    pub text_case: Option<TextCase>,
}

/// Localized date formats.
#[derive(Debug, Copy, Clone, PartialEq, Eq, Hash, Structural)]
pub enum DateForm {
    /// “12-15-2005”
    Numeric,
    /// “December 15, 2005”
    Text,
}

/// Which parts of a date should be included.
#[allow(missing_docs)]
#[derive(Debug, Copy, Clone, PartialEq, Eq, Hash, Structural)]
pub enum DateParts {
    Year,
    YearMonth,
    YearMonthDay,
}

impl Default for DateParts {
    /// All of year, month and day.
    fn default() -> (r: DateParts)
        ensures
            r == DateParts::YearMonthDay,
    {
        DateParts::YearMonthDay
    }
}

/// Override the default date parts.
#[derive(Debug, PartialEq, Eq, Hash)]
pub struct DatePart {
    /// Kind of the date part.
    pub name: DatePartName,
    /// Form of the date part, as written.
    pub form: Option<DateAnyForm>,
    /// The string used to delimit two date parts.
    pub range_delimiter: Option<String>,
    /// Override formatting style.
    pub formatting: Formatting,
    /// Add prefix and suffix. Ignored when this defines a localized date format.
    pub affixes: Affixes,
    /// Remove periods from the date part.
    ///
    /// Default: `false`
    pub strip_periods: Boolean,
    /// Transform the text case.
    pub text_case: Option<TextCase>,
}

impl DatePart {
    /// Retrieve the default delimiter for the date part.
    pub const DEFAULT_DELIMITER: &'static str = "–";

    /// Retrieve the form.
    pub fn form(&self) -> (r: Option<DateStrongAnyForm>)
        ensures
            r == (match self.form {
                Some(f) => strong_form(self.name, f),
                None => None,
            }),
    {
        DateStrongAnyForm::for_name(self.name, self.form?)
    }
}

/// The kind of a date part with its `form` attribute.
#[allow(missing_docs)]
#[derive(Debug, Copy, Clone, PartialEq, Eq, Hash, Structural)]
pub enum DatePartName {
    Day,
    Month,
    Year,
}

/// Any allowable date part format.
#[derive(Debug, Copy, Clone, PartialEq, Eq, Hash, Structural)]
pub enum DateAnyForm {
    /// “1”
    Numeric,
    /// “01”
    NumericLeadingZeros,
    /// “1st”
    Ordinal,
    /// “January”
    Long,
    /// “Jan.”
    Short,
}

/// Strongly typed date part formats.
#[allow(missing_docs)]
#[derive(Debug, Copy, Clone, PartialEq, Eq, Hash, Structural)]
pub enum DateStrongAnyForm {
    Day(DateDayForm),
    Month(DateMonthForm),
    Year(DateYearForm),
}

/// The day form that `f` stands for, if days can take it.
pub open spec fn day_form(f: DateAnyForm) -> Option<DateDayForm> {
    match f {
        DateAnyForm::Numeric => Some(DateDayForm::Numeric),
        DateAnyForm::NumericLeadingZeros => Some(DateDayForm::NumericLeadingZeros),
        DateAnyForm::Ordinal => Some(DateDayForm::Ordinal),
        DateAnyForm::Long | DateAnyForm::Short => None,
    }
}

/// The month form that `f` stands for, if months can take it.
pub open spec fn month_form(f: DateAnyForm) -> Option<DateMonthForm> {
    match f {
        DateAnyForm::Long => Some(DateMonthForm::Long),
        DateAnyForm::Short => Some(DateMonthForm::Short),
        DateAnyForm::Numeric => Some(DateMonthForm::Numeric),
        DateAnyForm::NumericLeadingZeros => Some(DateMonthForm::NumericLeadingZeros),
        DateAnyForm::Ordinal => None,
    }
}

/// The year form that `f` stands for, if years can take it.
pub open spec fn year_form(f: DateAnyForm) -> Option<DateYearForm> {
    match f {
        DateAnyForm::Long => Some(DateYearForm::Long),
        DateAnyForm::Short => Some(DateYearForm::Short),
        DateAnyForm::Numeric | DateAnyForm::NumericLeadingZeros | DateAnyForm::Ordinal => None,
    }
}

/// The strongly typed form of `form` for the date part `name`, if that part
/// can take it.
pub open spec fn strong_form(name: DatePartName, form: DateAnyForm) -> Option<DateStrongAnyForm> {
    match name {
        DatePartName::Day => match day_form(form) {
            Some(d) => Some(DateStrongAnyForm::Day(d)),
            None => None,
        },
        DatePartName::Month => match month_form(form) {
            Some(m) => Some(DateStrongAnyForm::Month(m)),
            None => None,
        },
        DatePartName::Year => match year_form(form) {
            Some(y) => Some(DateStrongAnyForm::Year(y)),
            None => None,
        },
    }
}

impl DateStrongAnyForm {
    /// Get a strongly typed date form for a name. Must return `Some` for valid
    /// CSL files.
    pub fn for_name(name: DatePartName, form: DateAnyForm) -> (r: Option<Self>)
        ensures
            r == strong_form(name, form),
    {
        Some(
            match name {
                DatePartName::Day => Self::Day(form.form_for_day()?),
                DatePartName::Month => Self::Month(form.form_for_month()?),
                DatePartName::Year => Self::Year(form.form_for_year()?),
            },
        )
    }

    /// The date part that this form belongs to.
    pub open spec fn part_name(self) -> DatePartName {
        match self {
            DateStrongAnyForm::Day(_) => DatePartName::Day,
            DateStrongAnyForm::Month(_) => DatePartName::Month,
            DateStrongAnyForm::Year(_) => DatePartName::Year,
        }
    }

    /// The untyped form that this form stands for.
    pub open spec fn as_any(self) -> DateAnyForm {
        match self {
            DateStrongAnyForm::Day(DateDayForm::Numeric) => DateAnyForm::Numeric,
            DateStrongAnyForm::Day(DateDayForm::NumericLeadingZeros) => DateAnyForm::NumericLeadingZeros,
            DateStrongAnyForm::Day(DateDayForm::Ordinal) => DateAnyForm::Ordinal,
            DateStrongAnyForm::Month(DateMonthForm::Long) => DateAnyForm::Long,
            DateStrongAnyForm::Month(DateMonthForm::Short) => DateAnyForm::Short,
            DateStrongAnyForm::Month(DateMonthForm::Numeric) => DateAnyForm::Numeric,
            DateStrongAnyForm::Month(DateMonthForm::NumericLeadingZeros) => DateAnyForm::NumericLeadingZeros,
            DateStrongAnyForm::Year(DateYearForm::Long) => DateAnyForm::Long,
            DateStrongAnyForm::Year(DateYearForm::Short) => DateAnyForm::Short,
        }
    }
}

/// The strongly typed form of a date part is a form of that same part, and it
/// stands for the very form it was made from.
pub proof fn lemma_strong_form_faithful(name: DatePartName, form: DateAnyForm)
    ensures
        strong_form(name, form) matches Some(s) ==> s.part_name() == name && s.as_any() == form,
{
}

/// Every strongly typed form of a date part is what its own untyped form
/// gives for that part: nothing is lost by typing.
pub proof fn lemma_strong_form_complete(s: DateStrongAnyForm)
    ensures
        strong_form(s.part_name(), s.as_any()) == Some(s),
{
}

/// Which forms each date part takes: days are numeric, numeric with leading
/// zeros or ordinal; months are long, short, numeric or numeric with leading
/// zeros; years are long or short. A form that a part takes becomes the form
/// of that part with the same name.
pub proof fn lemma_forms_of_parts(form: DateAnyForm)
    ensures
        strong_form(DatePartName::Day, form) is Some <==> (form == DateAnyForm::Numeric || form
            == DateAnyForm::NumericLeadingZeros || form == DateAnyForm::Ordinal),
        strong_form(DatePartName::Month, form) is Some <==> form != DateAnyForm::Ordinal,
        strong_form(DatePartName::Year, form) is Some <==> (form == DateAnyForm::Long || form
            == DateAnyForm::Short),
        strong_form(DatePartName::Day, DateAnyForm::Numeric) == Some(
            DateStrongAnyForm::Day(DateDayForm::Numeric),
        ),
        strong_form(DatePartName::Day, DateAnyForm::NumericLeadingZeros) == Some(
            DateStrongAnyForm::Day(DateDayForm::NumericLeadingZeros),
        ),
        strong_form(DatePartName::Day, DateAnyForm::Ordinal) == Some(
            DateStrongAnyForm::Day(DateDayForm::Ordinal),
        ),
        strong_form(DatePartName::Month, DateAnyForm::Long) == Some(
            DateStrongAnyForm::Month(DateMonthForm::Long),
        ),
        strong_form(DatePartName::Month, DateAnyForm::Short) == Some(
            DateStrongAnyForm::Month(DateMonthForm::Short),
        ),
        strong_form(DatePartName::Month, DateAnyForm::Numeric) == Some(
            DateStrongAnyForm::Month(DateMonthForm::Numeric),
        ),
        strong_form(DatePartName::Month, DateAnyForm::NumericLeadingZeros) == Some(
            DateStrongAnyForm::Month(DateMonthForm::NumericLeadingZeros),
        ),
        strong_form(DatePartName::Year, DateAnyForm::Long) == Some(
            DateStrongAnyForm::Year(DateYearForm::Long),
        ),
        strong_form(DatePartName::Year, DateAnyForm::Short) == Some(
            DateStrongAnyForm::Year(DateYearForm::Short),
        ),
{
}

impl DateAnyForm {
    /// Retrieve the form for a day.
    pub fn form_for_day(&self) -> (r: Option<DateDayForm>)
        ensures
            r == day_form(*self),
    {
        match self {
            Self::Numeric => Some(DateDayForm::Numeric),
            Self::NumericLeadingZeros => Some(DateDayForm::NumericLeadingZeros),
            Self::Ordinal => Some(DateDayForm::Ordinal),
            _ => None,
        }
    }

    /// Retrieve the form for a month.
    pub fn form_for_month(&self) -> (r: Option<DateMonthForm>)
        ensures
            r == month_form(*self),
    {
        match self {
            Self::Long => Some(DateMonthForm::Long),
            Self::Short => Some(DateMonthForm::Short),
            Self::Numeric => Some(DateMonthForm::Numeric),
            Self::NumericLeadingZeros => Some(DateMonthForm::NumericLeadingZeros),
            _ => None,
        }
    }

    /// Retrieve the form for a year.
    pub fn form_for_year(&self) -> (r: Option<DateYearForm>)
        ensures
            r == year_form(*self),
    {
        match self {
            Self::Long => Some(DateYearForm::Long),
            Self::Short => Some(DateYearForm::Short),
            _ => None,
        }
    }
}

/// How a day is formatted.
#[derive(Debug, Copy, Clone, PartialEq, Eq, Hash, Structural)]
pub enum DateDayForm {
    /// “1”
    Numeric,
    /// “01”
    NumericLeadingZeros,
    /// “1st”
    Ordinal,
}

/// How a month is formatted.
#[derive(Debug, Copy, Clone, PartialEq, Eq, Hash, Structural)]
pub enum DateMonthForm {
    /// “January”
    Long,
    /// “Jan.”
    Short,
    /// “1”
    Numeric,
    /// “01”
    NumericLeadingZeros,
}

/// How a year is formatted.
#[derive(Debug, Copy, Clone, PartialEq, Eq, Hash, Structural)]
pub enum DateYearForm {
    /// “2005”
    Long,
    /// “05”
    Short,
}

impl Clone for DatePart {
    fn clone(&self) -> (r: Self)
        ensures
            r == *self,
    {
        DatePart {
            name: self.name,
            form: self.form,
            range_delimiter: self.range_delimiter.clone(),
            formatting: self.formatting,
            affixes: self.affixes.clone(),
            strip_periods: self.strip_periods,
            text_case: self.text_case,
        }
    }
}

/// Whether `b` is a copy of the date `a`: equal in every field, with a list of
/// date parts that holds the same parts.
pub open spec fn same_date(a: Date, b: Date) -> bool {
    &&& b.variable == a.variable
    &&& b.form == a.form
    &&& b.parts == a.parts
    &&& b.date_part@ == a.date_part@
    &&& b.formatting == a.formatting
    &&& b.affixes == a.affixes
    &&& b.delimiter == a.delimiter
    &&& b.display == a.display
    &&& b.text_case == a.text_case
}

impl Clone for Date {
    fn clone(&self) -> (r: Self)
        ensures
            same_date(*self, r),
    {
        let date_part = self.date_part.clone();
        assert(date_part@ =~= self.date_part@);
        Date {
            variable: self.variable,
            form: self.form,
            parts: self.parts,
            date_part,
            formatting: self.formatting,
            affixes: self.affixes.clone(),
            delimiter: self.delimiter.clone(),
            display: self.display,
            text_case: self.text_case,
        }
    }
}

} // verus!
