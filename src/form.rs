//! Checks of the link form before it is sent: the values typed into its
//! fields become the settings of a link, or the list of what is wrong.

use vstd::prelude::*;

use crate::duration::{parts_text, Duration, Parts};
use crate::number::{decimal_of, parse_i64};

verus! {

/// The limits and defaults that the server reports to the form.
pub struct ServerConfig {
    pub public_url: String,
    pub max_link_length: usize,
    pub max_json_size: usize,
    pub max_custom_id_length: usize,
    pub default_max_uses: i64,
    pub default_valid_for: i64,
}

/// What can be wrong with the values typed into the form.
#[derive(Debug, Clone)]
pub enum FormError {
    /// No link was typed.
    LinkInputEmpty,
    /// The link is longer than the server accepts.
    ExceededMaxLinkLength { link: String, max_length: usize },
    /// The custom identifier is longer than the server accepts.
    ExceededMaxIdLength { id: String, max_length: usize },
    /// The use bound is not a number.
    ParseNumberFailure { number: String },
    /// The use bound is below 0.
    NegativeMaxUses { max_uses: i64 },
    /// The lifetime, in milliseconds, is below 0.
    NegativeExpiration { seconds: i64 },
    /// The expiry date is not a `YYYY-MM-DD` date.
    InvalidDate { date: String },
}

/// The content of a [`FormError`], with text as character sequences.
pub enum FormErrorView {
    LinkInputEmpty,
    ExceededMaxLinkLength { link: Seq<char>, max_length: usize },
    ExceededMaxIdLength { id: Seq<char>, max_length: usize },
    ParseNumberFailure { number: Seq<char> },
    NegativeMaxUses { max_uses: i64 },
    NegativeExpiration { seconds: i64 },
    InvalidDate { date: Seq<char> },
}

impl View for FormError {
    type V = FormErrorView;

    open spec fn view(&self) -> FormErrorView {
        match self {
            FormError::LinkInputEmpty => FormErrorView::LinkInputEmpty,
            FormError::ExceededMaxLinkLength { link, max_length } => FormErrorView::ExceededMaxLinkLength {
                link: link@,
                max_length: *max_length,
            },
            FormError::ExceededMaxIdLength { id, max_length } => FormErrorView::ExceededMaxIdLength {
                id: id@,
                max_length: *max_length,
            },
            FormError::ParseNumberFailure { number } => FormErrorView::ParseNumberFailure {
                number: number@,
            },
            FormError::NegativeMaxUses { max_uses } => FormErrorView::NegativeMaxUses {
                max_uses: *max_uses,
            },
            FormError::NegativeExpiration { seconds } => FormErrorView::NegativeExpiration {
                seconds: *seconds,
            },
            FormError::InvalidDate { date } => FormErrorView::InvalidDate { date: date@ },
        }
    }
}

/// Why sending the form to the server failed.
#[derive(Debug, Clone)]
pub enum RequestError {
    /// The request body is larger than the server accepts.
    JsonSizeExceeded,
    /// The request did not reach the server; the text says why.
    UnsuccessfulRequest { error: String },
    /// The server rejected the request as malformed.
    Backend400,
    /// The custom identifier is taken.
    IdInUse { id: String },
}

/// The settings of a link as the form sends them; what is not given takes
/// the server's defaults.
#[derive(Debug, Clone)]
pub struct LinkConfig {
    pub link: String,
    pub id: Option<String>,
    pub max_uses: Option<i64>,
    pub valid_for: Option<i64>,
}

/// The text in the form's fields, and the state of its two switches.
pub struct LinkFormValues {
    /// The link field.
    pub link: String,
    /// Whether the advanced settings are shown; only then do they count.
    pub advanced: bool,
    /// The custom identifier field.
    pub custom_id: String,
    /// The use bound field.
    pub max_uses: String,
    /// Whether the lifetime is entered as a date rather than a duration.
    pub expiration_is_date: bool,
    /// The lifetime field: a `YYYY-MM-DD` date or `dd:hh:mm:ss` text.
    pub expiration: String,
}

/// The errors of a list, as views.
pub open spec fn errors_view(v: Seq<FormError>) -> Seq<FormErrorView> {
    v.map_values(|e: FormError| e@)
}

/// The errors of a result: none for a success.
pub open spec fn errors_of<T>(r: Result<T, Seq<FormErrorView>>) -> Seq<FormErrorView> {
    match r {
        Ok(_) => Seq::empty(),
        Err(e) => e,
    }
}

/// `r` is the outcome that `s` describes.
pub open spec fn same_outcome<T: DeepView>(
    r: Result<T, Vec<FormError>>,
    s: Result<T::V, Seq<FormErrorView>>,
) -> bool {
    match (r, s) {
        (Ok(a), Ok(b)) => a.deep_view() == b,
        (Err(e), Err(f)) => errors_view(e@) == f,
        _ => false,
    }
}

/// A character with the Unicode White_Space property.
pub open spec fn is_white_space(c: char) -> bool {
    ('\u{9}' <= c && c <= '\u{d}') || c == ' ' || c == '\u{85}' || c == '\u{a0}' || c
        == '\u{1680}' || ('\u{2000}' <= c && c <= '\u{200a}') || c == '\u{2028}' || c
        == '\u{2029}' || c == '\u{202f}' || c == '\u{205f}' || c == '\u{3000}'
}

/// The text without its leading whitespace.
pub open spec fn trimmed_start(s: Seq<char>) -> Seq<char>
    decreases s.len(),
{
    if s.len() > 0 && is_white_space(s[0]) {
        trimmed_start(s.drop_first())
    } else {
        s
    }
}

/// The text without its trailing whitespace.
pub open spec fn trimmed_end(s: Seq<char>) -> Seq<char>
    decreases s.len(),
{
    if s.len() > 0 && is_white_space(s.last()) {
        trimmed_end(s.drop_last())
    } else {
        s
    }
}

/// The text with leading and trailing whitespace removed.
pub open spec fn trimmed(s: Seq<char>) -> Seq<char> {
    trimmed_end(trimmed_start(s))
}

/// The Unix time, in seconds, of midnight UTC on the `YYYY-MM-DD` date that
/// `s` writes, if it writes one.
pub uninterp spec fn iso_date_midnight_of(s: Seq<char>) -> Option<int>;

/// The text that shows an empty duration.
pub open spec fn zero_duration_text() -> Seq<char> {
    "00:00:00:00"@
}

/// The outcome of the link field: the text, unless it is empty or longer
/// than the server accepts.
pub open spec fn link_outcome(value: Seq<char>, max: Option<usize>) -> Result<
    Seq<char>,
    Seq<FormErrorView>,
> {
    if max is Some && value.len() > max->0 {
        Err(seq![FormErrorView::ExceededMaxLinkLength { link: value, max_length: max->0 }])
    } else if value.len() == 0 {
        Err(seq![FormErrorView::LinkInputEmpty])
    } else {
        Ok(value)
    }
}

/// The outcome of the custom identifier field: nothing when empty, else the
/// text, unless it is longer than the server accepts.
pub open spec fn id_outcome(value: Seq<char>, max: Option<usize>) -> Result<
    Option<Seq<char>>,
    Seq<FormErrorView>,
> {
    if value.len() == 0 {
        Ok(None)
    } else if max is Some && value.len() > max->0 {
        Err(seq![FormErrorView::ExceededMaxIdLength { id: value, max_length: max->0 }])
    } else {
        Ok(Some(value))
    }
}

/// The outcome of the use bound field, already trimmed: nothing when empty,
/// else a number of at least 0.
pub open spec fn max_uses_outcome(value: Seq<char>) -> Result<Option<i64>, Seq<FormErrorView>> {
    if value.len() == 0 {
        Ok(None)
    } else if decimal_of(value) is None {
        Err(seq![FormErrorView::ParseNumberFailure { number: value }])
    } else if decimal_of(value)->0 < 0 {
        Err(seq![FormErrorView::NegativeMaxUses { max_uses: decimal_of(value)->0 as i64 }])
    } else {
        Ok(Some(decimal_of(value)->0 as i64))
    }
}

/// The duration text is one the form can read: the empty duration, or
/// `dd:hh:mm:ss` whose span in milliseconds fits an `i64`.
pub open spec fn duration_text_ok(value: Seq<char>) -> bool {
    value == zero_duration_text() || (parts_text(value) is Some && i64::MIN <= parts_text(
        value,
    )->0.total() * 1000 <= i64::MAX)
}

/// The outcome of the duration field: nothing for the empty duration, else
/// the span in milliseconds, unless it is below 0.
pub open spec fn duration_outcome(value: Seq<char>) -> Result<Option<i64>, Seq<FormErrorView>> {
    if value == zero_duration_text() {
        Ok(None)
    } else {
        let ms = parts_text(value)->0.total() * 1000;
        if ms < 0 {
            Err(seq![FormErrorView::NegativeExpiration { seconds: ms as i64 }])
        } else {
            Ok(Some(ms as i64))
        }
    }
}

/// The outcome of the date field at Unix time `now`, in seconds: nothing
/// when empty, else the milliseconds from now to midnight UTC of the date,
/// unless the date has passed.
pub open spec fn date_outcome(value: Seq<char>, now: int) -> Result<
    Option<i64>,
    Seq<FormErrorView>,
> {
    if value.len() == 0 {
        Ok(None)
    } else if iso_date_midnight_of(value) is None {
        Err(seq![FormErrorView::InvalidDate { date: value }])
    } else {
        let ms = (iso_date_midnight_of(value)->0 - now) * 1000;
        if ms < 0 {
            Err(seq![FormErrorView::NegativeExpiration { seconds: ms as i64 }])
        } else {
            Ok(Some(ms as i64))
        }
    }
}

/// Relies on `str::trim`: the text without leading and trailing whitespace,
/// whitespace being the characters with the Unicode White_Space property.
#[verifier::external_body]
fn trim(s: &str) -> (r: &str)
    ensures
        r@ == trimmed(s@),
{
    s.trim()
}

/// Relies on time's `Date::parse` with the ISO 8601 date format, then
/// `Date::midnight`, `PlainDateTime::assume_utc` and
/// `OffsetDateTime::unix_timestamp`: the Unix time of midnight UTC on the
/// date, which lies within years -999999 to 999999.
#[verifier::external_body]
fn date_midnight_utc(s: &str) -> (r: Option<i64>)
    ensures
        r is Some <==> iso_date_midnight_of(s@) is Some,
        r matches Some(t) ==> iso_date_midnight_of(s@) == Some(t as int) && -100_000_000_000_000
            <= t <= 100_000_000_000_000,
{
    let format = time::format_description::well_known::Iso8601::DATE;
    match time::Date::parse(s, &format) {
        Ok(date) => Some(date.midnight().assume_utc().unix_timestamp()),
        Err(_) => None,
    }
}

impl LinkConfig {
    /// Checks the link field against the server's maximum length, where it
    /// is known, and for emptiness.
    pub fn parse_link(value: String, config: Option<&ServerConfig>) -> (r: Result<
        String,
        Vec<FormError>,
    >)
        ensures
            same_outcome(
                r,
                link_outcome(
                    value@,
                    match config {
                        Some(c) => Some(c.max_link_length),
                        None => None,
                    },
                ),
            ),
    {
        let len = value.as_str().unicode_len();
        let mut errors: Vec<FormError> = Vec::new();
        if let Some(c) = config {
            if len > c.max_link_length {
                errors.push(
                    FormError::ExceededMaxLinkLength {
                        link: value.clone(),
                        max_length: c.max_link_length,
                    },
                );
            }
        }
        if len == 0 {
            errors.push(FormError::LinkInputEmpty);
        }
        if errors.len() > 0 {
            assert(errors_view(errors@) =~= errors_of(
                link_outcome(
                    value@,
                    match config {
                        Some(c) => Some(c.max_link_length),
                        None => None,
                    },
                ),
            ));
            return Err(errors);
        }
        Ok(value)
    }

    /// Checks the custom identifier field: empty means none, else it must
    /// fit the server's maximum length, where it is known.
    pub fn parse_id(value: String, config: Option<&ServerConfig>) -> (r: Result<
        Option<String>,
        Vec<FormError>,
    >)
        ensures
            same_outcome(
                r,
                id_outcome(
                    value@,
                    match config {
                        Some(c) => Some(c.max_custom_id_length),
                        None => None,
                    },
                ),
            ),
    {
        let len = value.as_str().unicode_len();
        if len == 0 {
            return Ok(None);
        }
        if let Some(c) = config {
            if len > c.max_custom_id_length {
                let errors = vec![
                    FormError::ExceededMaxIdLength { id: value, max_length: c.max_custom_id_length },
                ];
                assert(errors_view(errors@) =~= errors_of(
                    id_outcome(value@, Some(c.max_custom_id_length)),
                ));
                return Err(errors);
            }
        }
        Ok(Some(value))
    }

    /// Checks the use bound field after trimming: empty means none, else it
    /// must be a number of at least 0.
    pub fn parse_trimmed_max_uses(value: &str) -> (r: Result<Option<i64>, Vec<FormError>>)
        ensures
            same_outcome(r, max_uses_outcome(value@)),
    {
        if value.unicode_len() == 0 {
            return Ok(None);
        }
        match parse_i64(value) {
            None => {
                let errors = vec![FormError::ParseNumberFailure { number: String::from_str(value) }];
                assert(errors_view(errors@) =~= errors_of(max_uses_outcome(value@)));
                Err(errors)
            },
            Some(n) => {
                if n < 0 {
                    let errors = vec![FormError::NegativeMaxUses { max_uses: n }];
                    assert(errors_view(errors@) =~= errors_of(max_uses_outcome(value@)));
                    Err(errors)
                } else {
                    Ok(Some(n))
                }
            },
        }
    }

    /// Checks the use bound field: trimmed, empty means none, else it must
    /// be a number of at least 0.
    pub fn parse_max_uses(value: &str) -> (r: Result<Option<i64>, Vec<FormError>>)
        ensures
            same_outcome(r, max_uses_outcome(trimmed(value@))),
    {
        Self::parse_trimmed_max_uses(trim(value))
    }

    /// Reads the duration field: nothing for the empty duration, else the
    /// span in milliseconds, which must not be below 0.
    pub fn parse_duration(value: &str) -> (r: Result<Option<i64>, Vec<FormError>>)
        requires
            duration_text_ok(value@),
        ensures
            same_outcome(r, duration_outcome(value@)),
    {
        let zero = String::from_str("00:00:00:00");
        if zero == String::from_str(value) {
            return Ok(None);
        }
        match Parts::parse(value) {
            Err(_) => Ok(None),
            Ok(parts) => {
                let seconds = Duration::from_parts(parts).seconds * 1000;
                if seconds < 0 {
                    let errors = vec![FormError::NegativeExpiration { seconds }];
                    assert(errors_view(errors@) =~= errors_of(duration_outcome(value@)));
                    Err(errors)
                } else {
                    Ok(Some(seconds))
                }
            },
        }
    }

    /// Reads the date field at Unix time `now`, in seconds: nothing when
    /// empty, else the milliseconds until midnight UTC of the date, which
    /// must not have passed.
    pub fn parse_date(value: &str, now: i64) -> (r: Result<Option<i64>, Vec<FormError>>)
        requires
            -1_000_000_000_000_000 <= now <= 1_000_000_000_000_000,
        ensures
            same_outcome(r, date_outcome(value@, now as int)),
    {
        if value.unicode_len() == 0 {
            return Ok(None);
        }
        match date_midnight_utc(value) {
            None => {
                let errors = vec![FormError::InvalidDate { date: String::from_str(value) }];
                assert(errors_view(errors@) =~= errors_of(date_outcome(value@, now as int)));
                Err(errors)
            },
            Some(midnight) => {
                let difference = (midnight - now) * 1000;
                if difference < 0 {
                    let errors = vec![FormError::NegativeExpiration { seconds: difference }];
                    assert(errors_view(errors@) =~= errors_of(date_outcome(value@, now as int)));
                    Err(errors)
                } else {
                    Ok(Some(difference))
                }
            },
        }
    }

    /// Turns the form's values at Unix time `now`, in seconds, into the
    /// settings of a link. The advanced fields count only when shown; every
    /// error found is reported, in the order of the fields.
    pub fn try_from(values: &LinkFormValues, config: Option<&ServerConfig>, now: i64) -> (r: Result<
        LinkConfig,
        Vec<FormError>,
    >)
        requires
            values.advanced && !values.expiration_is_date ==> duration_text_ok(values.expiration@),
            values.advanced && values.expiration_is_date ==> -1_000_000_000_000_000 <= now
                <= 1_000_000_000_000_000,
        ensures
            ({
                let max_link = match config {
                    Some(c) => Some(c.max_link_length),
                    None => None,
                };
                let max_id = match config {
                    Some(c) => Some(c.max_custom_id_length),
                    None => None,
                };
                let l = link_outcome(values.link@, max_link);
                let i = if values.advanced {
                    id_outcome(values.custom_id@, max_id)
                } else {
                    Ok(None)
                };
                let u = if values.advanced {
                    max_uses_outcome(trimmed(values.max_uses@))
                } else {
                    Ok(None)
                };
                let v = if !values.advanced {
                    Ok(None)
                } else if values.expiration_is_date {
                    date_outcome(values.expiration@, now as int)
                } else {
                    duration_outcome(values.expiration@)
                };
                &&& r is Ok <==> (l is Ok && i is Ok && u is Ok && v is Ok)
                &&& r matches Ok(c) ==> c.link@ == l->Ok_0 && c.id.deep_view() == i->Ok_0
                    && c.max_uses == u->Ok_0 && c.valid_for == v->Ok_0
                &&& r matches Err(e) ==> errors_view(e@) == errors_of(l) + errors_of(i) + errors_of(
                    u,
                ) + errors_of(v)
            }),
    {
        let mut errors: Vec<FormError> = Vec::new();
        let link = Self::parse_link(values.link.clone(), config);
        let mut id: Result<Option<String>, Vec<FormError>> = Ok(None);
        let mut max_uses: Result<Option<i64>, Vec<FormError>> = Ok(None);
        let mut valid_for: Result<Option<i64>, Vec<FormError>> = Ok(None);
        if values.advanced {
            id = Self::parse_id(values.custom_id.clone(), config);
            max_uses = Self::parse_max_uses(values.max_uses.as_str());
            valid_for = if values.expiration_is_date {
                Self::parse_date(values.expiration.as_str(), now)
            } else {
                Self::parse_duration(values.expiration.as_str())
            };
        }
        let link = match link {
            Ok(l) => Some(l),
            Err(mut e) => {
                errors.append(&mut e);
                None
            },
        };
        let id = match id {
            Ok(i) => Some(i),
            Err(mut e) => {
                errors.append(&mut e);
                None
            },
        };
        let max_uses = match max_uses {
            Ok(u) => Some(u),
            Err(mut e) => {
                errors.append(&mut e);
                None
            },
        };
        let valid_for = match valid_for {
            Ok(v) => Some(v),
            Err(mut e) => {
                errors.append(&mut e);
                None
            },
        };
        match (link, id, max_uses, valid_for) {
            (Some(link), Some(id), Some(max_uses), Some(valid_for)) => {
                if errors.len() == 0 {
                    return Ok(LinkConfig { link, id, max_uses, valid_for });
                }
                Err(errors)
            },
            _ => Err(errors),
        }
    }
}

/// Whether a request body of `json_len` bytes may be sent: it must not be
/// larger than the server accepts, where that is known.
pub fn check_request_size(json_len: usize, config: Option<&ServerConfig>) -> (r: Result<
    (),
    RequestError,
>)
    ensures
        r is Ok <==> (config is None || json_len <= config->0.max_json_size),
        r matches Err(e) ==> e is JsonSizeExceeded,
{
    if let Some(c) = config {
        if json_len > c.max_json_size {
            return Err(RequestError::JsonSizeExceeded);
        }
    }
    Ok(())
}

/// What the server's answer to a create request means: on success its text
/// is the shortened link, 400 is a malformed request, and 409 a custom
/// identifier in use.
pub fn response_outcome(status: u16, text: String, id: Option<String>) -> (r: Result<
    String,
    RequestError,
>)
    requires
        200 <= status < 300 || status == 400 || (status == 409 && id is Some),
    ensures
        200 <= status < 300 ==> (r matches Ok(t) && t@ == text@),
        status == 400 ==> (r matches Err(e) && e is Backend400),
        status == 409 ==> (r matches Err(RequestError::IdInUse { id: i }) && i@ == id->0@),
{
    if 200 <= status && status < 300 {
        return Ok(text);
    }
    if status == 400 {
        return Err(RequestError::Backend400);
    }
    match id {
        Some(i) => Err(RequestError::IdInUse { id: i }),
        None => Err(RequestError::Backend400),
    }
}

} // verus!
