//! What the service's web front decides for every request: whether it
//! came in safely, and which headers its answer carries.

use crate::model::{option_str, option_text};
use crate::text::same_text;
use vstd::prelude::*;
use vstd::string::StringExecFns;

verus! {

/// Where the service runs.
#[derive(Clone, Copy, Debug, PartialEq, Eq, Structural)]
pub enum Env {
    Development,
    Production,
    Test,
}

/// The host that a request is sent on to where it names none.
pub const FALLBACK_HOST: &'static str = "localhost";

/// The place that the name `name` stands for.
pub open spec fn env_named(name: Seq<char>) -> Option<Env> {
    if name == "development"@ {
        Some(Env::Development)
    } else if name == "production"@ {
        Some(Env::Production)
    } else if name == "test"@ {
        Some(Env::Test)
    } else {
        None
    }
}

/// Whether a request came in safely: its `x-ssl` header says `true`.
pub open spec fn came_safely(x_ssl: Option<Seq<char>>) -> bool {
    x_ssl == Some("true"@)
}

/// Where a request for `path_and_query` on `host` is sent on to, if it
/// is: a request that came in safely is let through, and so is every
/// request in development; any other is sent to the same place over
/// https, on `localhost` where it names no host.
pub open spec fn ssl_redirect(
    x_ssl: Option<Seq<char>>,
    env: Env,
    host: Option<Seq<char>>,
    path_and_query: Seq<char>,
) -> Option<Seq<char>> {
    if came_safely(x_ssl) || env == Env::Development {
        None
    } else {
        Some(
            "https://"@ + (match host {
                Some(h) => h,
                None => FALLBACK_HOST@,
            }) + path_and_query,
        )
    }
}

/// The headers that every answer carries, as names and values.
pub open spec fn security_header_list() -> Seq<(Seq<char>, Seq<char>)> {
    seq![
        ("X-Content-Type-Options"@, "nosniff"@),
        ("X-Frame-Options"@, "SAMEORIGIN"@),
        ("referrer-policy"@, "no-referrer-when-downgrade"@),
        (
            "Strict-Transport-Security"@,
            "Strict-Transport-Security: max-age=31536000; includeSubDomains"@,
        ),
    ]
}

impl Env {
    /// The place that the name `name` stands for: `development`,
    /// `production` or `test`.
    pub fn current(name: &str) -> (env: Option<Env>)
        ensures
            env == env_named(name@),
    {
        if same_text(name, "development") {
            Some(Env::Development)
        } else if same_text(name, "production") {
            Some(Env::Production)
        } else if same_text(name, "test") {
            Some(Env::Test)
        } else {
            None
        }
    }

    /// Whether this is the place of development.
    pub fn is_dev(&self) -> (b: bool)
        ensures
            b == (*self == Env::Development),
    {
        match self {
            Env::Development => true,
            _ => false,
        }
    }
}

/// Where a request is sent on to, if it is not let through.
pub fn only_ssl(
    x_ssl: Option<&str>,
    env: Env,
    host: Option<&str>,
    path_and_query: &str,
) -> (location: Option<String>)
    ensures
        option_text(location) == ssl_redirect(
            option_str(x_ssl),
            env,
            option_str(host),
            path_and_query@,
        ),
{
    let ssl = match x_ssl {
        Some(value) => same_text(value, "true"),
        None => false,
    };
    if ssl || env.is_dev() {
        None
    } else {
        let mut location = String::from_str("https://");
        match host {
            Some(h) => location.append(h),
            None => location.append(FALLBACK_HOST),
        }
        location.append(path_and_query);
        Some(location)
    }
}

/// The headers, as mathematical values.
pub open spec fn header_views(headers: Seq<(String, String)>) -> Seq<(Seq<char>, Seq<char>)> {
    headers.map_values(|h: (String, String)| (h.0@, h.1@))
}

/// The headers that every answer carries.
pub fn security_headers() -> (headers: Vec<(String, String)>)
    ensures
        header_views(headers@) == security_header_list(),
{
    let mut headers: Vec<(String, String)> = Vec::new();
    headers.push((String::from_str("X-Content-Type-Options"), String::from_str("nosniff")));
    headers.push((String::from_str("X-Frame-Options"), String::from_str("SAMEORIGIN")));
    headers.push(
        (String::from_str("referrer-policy"), String::from_str("no-referrer-when-downgrade")),
    );
    headers.push(
        (
            String::from_str("Strict-Transport-Security"),
            String::from_str("Strict-Transport-Security: max-age=31536000; includeSubDomains"),
        ),
    );
    proof {
        assert(header_views(headers@) =~= security_header_list());
    }
    headers
}

} // verus!
