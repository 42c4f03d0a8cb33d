use vstd::prelude::*;

verus! {

/// The server's settings, built once at startup and handed to the parts that
/// need them.
pub struct Config {
    /// The address the server listens on.
    pub listen_url: String,
    /// The public URL that prefixes shortened links; it differs from
    /// `listen_url` behind a reverse proxy.
    pub public_url: String,
    /// The listen port.
    pub port: u16,
    /// Where the links are kept between runs.
    pub database_location: String,
    /// The maximum length, in characters, of a destination.
    pub max_link_length: usize,
    /// The maximum size of an accepted JSON body, in bytes.
    pub max_json_size: usize,
    /// The maximum length, in characters, of a custom identifier.
    pub max_custom_id_length: usize,
    /// The use bound given to links created without one (0: unlimited).
    pub default_max_uses: i64,
    /// The time bound, in milliseconds, given to links created without one
    /// (0: never expires).
    pub default_valid_for: i64,
    /// A directory to serve the front-end from, if any.
    pub frontend_location: Option<String>,
}

/// The default listen address.
pub fn listen_url_default() -> (r: String)
    ensures
        r@ == "127.0.0.1"@,
{
    String::from_str("127.0.0.1")
}

/// The default listen port.
pub fn port_default() -> (r: u16)
    ensures
        r == 7999,
{
    7999
}

/// The default maximum destination length.
pub fn max_link_length_default() -> (r: usize)
    ensures
        r == 2500,
{
    2500
}

/// The default maximum JSON body size: two mebibytes.
pub fn max_json_size_default() -> (r: usize)
    ensures
        r == 2097152,
{
    2097152
}

/// The default maximum custom identifier length.
pub fn max_custom_id_length_default() -> (r: usize)
    ensures
        r == 64,
{
    64
}

/// The default use bound: unlimited.
pub fn max_uses_default() -> (r: i64)
    ensures
        r == 0,
{
    0
}

/// The default time bound: 24 hours, in milliseconds.
pub fn valid_for_duration_default() -> (r: i64)
    ensures
        r == 86400000,
{
    86400000
}

/// The MIME type of a file that the front-end ships, by its name; `None` for
/// any other name.
pub fn get_embedded_file(file: &str) -> (r: Option<String>)
    ensures
        file@ == "index.html"@ ==> (r matches Some(t) && t@ == "text/html"@),
        file@ == "main.js"@ ==> (r matches Some(t) && t@ == "text/javascript"@),
        file@ == "style.css"@ ==> (r matches Some(t) && t@ == "text/css"@),
        file@ == "roboto_mono.ttf"@ ==> (r matches Some(t) && t@ == "font/ttf"@),
        r is Some ==> file@ == "index.html"@ || file@ == "main.js"@ || file@ == "style.css"@
            || file@ == "roboto_mono.ttf"@,
{
    proof {
        reveal_strlit("index.html");
        reveal_strlit("main.js");
        reveal_strlit("style.css");
        reveal_strlit("roboto_mono.ttf");
        assert("index.html"@.len() == 10);
        assert("main.js"@.len() == 7);
        assert("style.css"@.len() == 9);
        assert("roboto_mono.ttf"@.len() == 15);
    }
    let name = String::from_str(file);
    if name == String::from_str("index.html") {
        Some(String::from_str("text/html"))
    } else if name == String::from_str("main.js") {
        Some(String::from_str("text/javascript"))
    } else if name == String::from_str("style.css") {
        Some(String::from_str("text/css"))
    } else if name == String::from_str("roboto_mono.ttf") {
        Some(String::from_str("font/ttf"))
    } else {
        None
    }
}

} // verus!
