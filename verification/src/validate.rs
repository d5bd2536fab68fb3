//! Validation of untrusted query parameters.
//!
//! Four raw inputs (series text, decimation factor, start and stop date
//! text) become a typed `ExportRequest`, or a `ValidationError` that the
//! HTTP layer answers with a Bad Request status and no database access.
//! An absent parameter takes its documented default, so a request with
//! no parameters at all is valid.

use vstd::prelude::*;
use crate::dates::Date;
use crate::dates::date_text_valid;
use crate::dates::text_day;
use crate::dates::text_month;
use crate::dates::text_year;
use crate::dates::parse_date;
use crate::series::SeriesName;
use crate::series::parse_series;
use crate::series::series_from_text;

verus! {

/// Decimation factor applied when the request names none.
pub const DEFAULT_DECIMATION: i32 = 10;

/// Why a request was refused. Every variant is answered with the same
/// Bad Request status; the variant records which input was at fault.
#[derive(Clone, Copy, Debug, PartialEq, Eq, Structural)]
pub enum ValidationError {
    /// The series text names no column of the allow-list.
    BadSeries,
    /// The decimation factor is zero or negative.
    BadDecimation,
    /// The start date is not a valid `YYYY-MM-DD` calendar day.
    BadStartDate,
    /// The stop date is not a valid `YYYY-MM-DD` calendar day.
    BadStopDate,
}

/// A validated export request. Its invariant `wf()` is what the rest of
/// the pipeline relies on: the series is drawn from the allow-list by
/// construction, the decimation is at least one, and both dates name
/// real calendar days.
#[derive(Clone, Copy, Debug, PartialEq, Eq, Structural)]
pub struct ExportRequest {
    pub series: SeriesName,
    pub decimation: u32,
    pub start: Date,
    pub stop: Date,
}

impl ExportRequest {
    pub open spec fn wf(self) -> bool {
        &&& self.decimation >= 1
        &&& self.start.valid()
        &&& self.stop.valid()
    }
}

/// Earliest-allowed start date substituted when the request names none.
pub open spec fn default_start_date() -> Date {
    Date { year: 2024, month: 1, day: 1 }
}

/// Far-future stop date substituted when the request names none.
pub open spec fn default_stop_date() -> Date {
    Date { year: 3000, month: 1, day: 1 }
}

/// The series the request asks for: the default series when absent,
/// else the allow-list member its text names exactly, else nothing.
pub open spec fn series_choice(data: Option<&str>) -> Option<SeriesName> {
    match data {
        None => Some(SeriesName::Charge),
        Some(s) => series_from_text(s@),
    }
}

/// The decimation factor the request asks for, default included.
pub open spec fn decimation_choice(modulo: Option<i32>) -> int {
    match modulo {
        None => DEFAULT_DECIMATION as int,
        Some(m) => m as int,
    }
}

/// The date the given text asks for, against the given default.
pub open spec fn date_choice(text: Option<&str>, default: Date) -> Option<Date> {
    match text {
        None => Some(default),
        Some(s) => if date_text_valid(s@) {
            Some(
                Date {
                    year: text_year(s@) as u16,
                    month: text_month(s@) as u8,
                    day: text_day(s@) as u8,
                },
            )
        } else {
            None
        },
    }
}

/// Validate the four raw query parameters into an `ExportRequest`.
///
/// Inputs are checked in order: series, decimation, start date, stop
/// date; the first bad one names the error. A request passes exactly
/// when its series text (if present) is on the allow-list, its
/// decimation (if present) is positive, and both date texts (if
/// present) are valid `YYYY-MM-DD` calendar days. A reversed range
/// (start after stop) is accepted and simply selects nothing.
pub fn validate(
    data: Option<&str>,
    modulo: Option<i32>,
    startdate: Option<&str>,
    stopdate: Option<&str>,
) -> (r: Result<ExportRequest, ValidationError>)
    ensures
        match r {
            Ok(req) => {
                &&& series_choice(data) == Some(req.series)
                &&& decimation_choice(modulo) == req.decimation as int
                &&& date_choice(startdate, default_start_date()) == Some(req.start)
                &&& date_choice(stopdate, default_stop_date()) == Some(req.stop)
                &&& req.wf()
            },
            Err(e) => {
                if series_choice(data) is None {
                    e == ValidationError::BadSeries
                } else if decimation_choice(modulo) < 1 {
                    e == ValidationError::BadDecimation
                } else if date_choice(startdate, default_start_date()) is None {
                    e == ValidationError::BadStartDate
                } else {
                    &&& date_choice(stopdate, default_stop_date()) is None
                    &&& e == ValidationError::BadStopDate
                }
            },
        },
{
    let series = match data {
        None => SeriesName::Charge,
        Some(s) => match parse_series(s) {
            Some(x) => x,
            None => {
                return Err(ValidationError::BadSeries);
            },
        },
    };
    let m: i32 = match modulo {
        None => DEFAULT_DECIMATION,
        Some(v) => v,
    };
    if m < 1 {
        return Err(ValidationError::BadDecimation);
    }
    let decimation: u32 = m as u32;
    let start = match startdate {
        None => Date { year: 2024, month: 1, day: 1 },
        Some(s) => match parse_date(s) {
            Some(d) => d,
            None => {
                return Err(ValidationError::BadStartDate);
            },
        },
    };
    let stop = match stopdate {
        None => Date { year: 3000, month: 1, day: 1 },
        Some(s) => match parse_date(s) {
            Some(d) => d,
            None => {
                return Err(ValidationError::BadStopDate);
            },
        },
    };
    Ok(ExportRequest { series, decimation, start, stop })
}

} // verus!
