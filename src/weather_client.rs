//! The request address of the weather service and the words of its error
//! reports.
use crate::decimal::{decimal_digits, push_decimal};
use crate::location::{location_params, params_view, LocationSpecifier};
use vstd::prelude::*;
use vstd::string::*;

verus! {

#[verifier::external_type_specification]
#[verifier::external_body]
pub struct ExUrlParseError(url::ParseError);

/// The service's address unless another is configured.
pub const DEFAULT_BASE_URL: &'static str = "https://api.openweathermap.org/data/2.5/";

/// The serialization of the address `base` with the query pairs `params`
/// appended, or `None` where `base` is no valid absolute address.
pub uninterp spec fn url_with_query(base: Seq<char>, params: Seq<(Seq<char>, Seq<char>)>) -> Option<
    Seq<char>,
>;

/// Relies on `url::Url::parse_with_params`: it parses `base` and appends
/// the pairs, percent-encoded, as the query; the result depends on the
/// arguments alone.
#[verifier::external_body]
fn parse_with_params(base: &str, params: &Vec<(String, String)>) -> (r: Result<
    String,
    url::ParseError,
>)
    ensures
        r matches Ok(s) ==> url_with_query(base@, params_view(params@)) == Some(s@),
        r is Err ==> url_with_query(base@, params_view(params@)) is None,
{
    url::Url::parse_with_params(base, params.iter()).map(String::from)
}

/// The configured base address is no valid absolute address.
#[derive(Clone, Copy, Debug, PartialEq, Eq, Structural)]
pub enum UrlError {
    InvalidBase,
}

/// The query pairs of a current-weather request: the location's, then the key.
pub open spec fn weather_query(l: LocationSpecifier, key: Seq<char>) -> Seq<
    (Seq<char>, Seq<char>),
> {
    location_params(l).push(("APPID"@, key))
}

/// The address that asks for the current weather at `location` with the key
/// `key`, below the service address `base_url`.
pub fn get_current_weather_url(location: &LocationSpecifier, key: String, base_url: &str) -> (r:
    Result<String, UrlError>)
    ensures
        r matches Ok(s) ==> url_with_query(base_url@ + "weather"@, weather_query(*location, key@))
            == Some(s@),
        r is Err <==> url_with_query(base_url@ + "weather"@, weather_query(*location, key@)) is None,
        r matches Err(e) ==> e == UrlError::InvalidBase,
{
    let mut base = base_url.to_owned();
    base.append("weather");
    let mut params = location.format();
    params.push(("APPID".to_owned(), key));
    assert(params_view(params@) =~= weather_query(*location, key@));
    match parse_with_params(base.as_str(), &params) {
        Ok(s) => Ok(s),
        Err(_) => Err(UrlError::InvalidBase),
    }
}

/// `Error code <cod> with message "<message>"`
pub open spec fn error_report_text(cod: u32, message: Seq<char>) -> Seq<char> {
    "Error code "@ + decimal_digits(cod as nat) + " with message \""@ + message + "\""@
}

/// The words of an error report of the service.
pub fn error_report_message(cod: u32, message: &str) -> (r: String)
    ensures
        r@ == error_report_text(cod, message@),
{
    let mut r = String::new();
    r.append("Error code ");
    push_decimal(&mut r, cod as u64);
    r.append(" with message \"");
    r.append(message);
    r.append("\"");
    assert(r@ =~= error_report_text(cod, message@));
    r
}

} // verus!
