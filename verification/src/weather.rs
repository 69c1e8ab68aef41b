use vstd::prelude::*;
use vstd::string::StrSliceExecFns;
use vstd::string::StringExecFns;
use crate::AppError;
use crate::capabilities::QueryClient;

verus! {

// Names the outcome of html2text's rich renderer: the plain-text lines, sized
// to the given display width, that it reads out of an HTML-like text, or
// nothing where rendering the text at that width fails.
pub uninterp spec fn rendered_lines(body: Seq<char>, width: int) -> Option<Seq<Seq<char>>>;

/// Relies on html2text::from_read_rich and TaggedLine::chars: the lines
/// rendered from a text at a width depend on the text and the width alone,
/// and chars yields each line's characters with the markup discarded.
#[verifier::external_body]
fn render_html_lines(body: &str, width: usize) -> (r: Option<Vec<String>>)
    ensures
        r is Some <==> rendered_lines(body@, width as int) is Some,
        r is Some ==> r->0@.map_values(|line: String| line@) == rendered_lines(
            body@,
            width as int,
        )->0,
{
    Some(
        html2text::from_read_rich(body.as_bytes(), width)
            .ok()?
            .into_iter()
            .map(|line| line.chars().collect::<String>())
            .collect(),
    )
}

/// The fixed weather-service URL for a city: the service's address with the
/// city name embedded.
pub open spec fn weather_url_spec(city: Seq<char>) -> Seq<char> {
    "https://wttr.in/"@ + city
}

/// Builds the weather-service URL for a city.
pub fn weather_url(city: &str) -> (r: String)
    ensures
        r@ == weather_url_spec(city@),
{
    let base = String::from_str("https://wttr.in/");
    base.concat(city)
}

/// Turns a response body from the weather service into plain display lines
/// sized to the given width, discarding the markup; fails where the body
/// cannot be rendered at that width.
pub fn render_weather(body: &str, width: usize) -> (r: Result<Vec<String>, AppError>)
    ensures
        r is Ok <==> rendered_lines(body@, width as int) is Some,
        r is Err ==> r->Err_0 == AppError::RenderFailed,
        r is Ok ==> Some(r->Ok_0@.map_values(|line: String| line@)) == rendered_lines(
            body@,
            width as int,
        ),
{
    match render_html_lines(body, width) {
        Some(lines) => Ok(lines),
        None => Err(AppError::RenderFailed),
    }
}

/// The weather action: fetches the weather service's page for the city, with
/// no token, and renders it as plain lines sized to the display width.
/// Whatever the client returned, a successful result is the rendering of some
/// body at that width; a fetch failure or an unrenderable body yields an
/// error and no lines.
pub fn get_the_weather<Q: QueryClient>(http_query: &Q, city: &str, width: usize) -> (r: Result<
    Vec<String>,
    AppError,
>)
    ensures
        r is Ok ==> exists|body: Seq<char>|
            #[trigger] rendered_lines(body, width as int) == Some(
                r->Ok_0@.map_values(|line: String| line@),
            ),
        r is Err ==> (r->Err_0 == AppError::FetchFailed || r->Err_0 == AppError::RenderFailed),
{
    let url = weather_url(city);
    match http_query.fetch_text(url.as_str(), "") {
        Some(body) => {
            let ghost b = body@;
            let r = render_weather(body.as_str(), width);
            proof {
                if r is Ok {
                    assert(rendered_lines(b, width as int) == Some(
                        r->Ok_0@.map_values(|line: String| line@),
                    ));
                }
            }
            r
        },
        None => Err(AppError::FetchFailed),
    }
}

} // verus!
