//! The monitoring descriptor of a package, and what the release-tracking
//! service answers for it.

use crate::manifest::YamlValue;
use vstd::prelude::*;
use vstd::string::StringExecFns;

verus! {

/// Where the releases of a package are tracked.
#[derive(Debug, PartialEq, Eq)]
pub struct Releases {
    /// The identifier of the project at the release-tracking service; without
    /// one the package is not looked up.
    pub id: Option<u32>,
    pub rss: Option<String>,
}

/// The monitoring descriptor of a package. Only the tracking identifier
/// bears on updates; the rest is carried along.
#[derive(Debug, PartialEq, Eq)]
pub struct Monitoring {
    pub releases: Releases,
    pub security: Option<YamlValue>,
}

/// What the release-tracking service knows of a project.
#[derive(Debug, PartialEq, Eq)]
pub struct ApiProject {
    /// The latest version that the service has seen.
    pub version: String,
    pub homepage: Option<String>,
}

/// The character of a decimal digit.
pub open spec fn digit_char(d: nat) -> char {
    if d == 0 {
        '0'
    } else if d == 1 {
        '1'
    } else if d == 2 {
        '2'
    } else if d == 3 {
        '3'
    } else if d == 4 {
        '4'
    } else if d == 5 {
        '5'
    } else if d == 6 {
        '6'
    } else if d == 7 {
        '7'
    } else if d == 8 {
        '8'
    } else {
        '9'
    }
}

/// A number written in decimal, without leading zeros.
pub open spec fn decimal(n: nat) -> Seq<char>
    decreases n,
{
    if n < 10 {
        seq![digit_char(n)]
    } else {
        decimal(n / 10).push(digit_char(n % 10))
    }
}

/// The address at which the release-tracking service answers for a project.
pub open spec fn project_address(id: u32) -> Seq<char> {
    "https://release-monitoring.org/api/project/"@ + decimal(id as nat)
}

/// A decimal digit as text.
fn digit_text(d: u32) -> (r: &'static str)
    requires
        d < 10,
    ensures
        r@ == seq![digit_char(d as nat)],
{
    proof {
        reveal_strlit("0");
        reveal_strlit("1");
        reveal_strlit("2");
        reveal_strlit("3");
        reveal_strlit("4");
        reveal_strlit("5");
        reveal_strlit("6");
        reveal_strlit("7");
        reveal_strlit("8");
        reveal_strlit("9");
    }
    let r = if d == 0 {
        "0"
    } else if d == 1 {
        "1"
    } else if d == 2 {
        "2"
    } else if d == 3 {
        "3"
    } else if d == 4 {
        "4"
    } else if d == 5 {
        "5"
    } else if d == 6 {
        "6"
    } else if d == 7 {
        "7"
    } else if d == 8 {
        "8"
    } else {
        "9"
    };
    assert(r@ =~= seq![digit_char(d as nat)]);
    r
}

/// A number written in decimal.
pub fn decimal_text(n: u32) -> (r: String)
    ensures
        r@ == decimal(n as nat),
    decreases n,
{
    if n < 10 {
        String::from_str(digit_text(n))
    } else {
        let r = decimal_text(n / 10).concat(digit_text(n % 10));
        assert(r@ =~= decimal((n / 10) as nat).push(digit_char((n % 10) as nat)));
        r
    }
}

/// The address at which to ask the release-tracking service for the project
/// `id`.
pub fn project_url(id: u32) -> (r: String)
    ensures
        r@ == project_address(id),
{
    let number = decimal_text(id);
    String::from_str("https://release-monitoring.org/api/project/").concat(number.as_str())
}

impl Monitoring {
    /// The address to ask for the latest release, or `None` where the
    /// descriptor holds no tracking identifier and nothing is to be asked.
    pub fn lookup_url(&self) -> (r: Option<String>)
        ensures
            match self.releases.id {
                Some(id) => r matches Some(url) && url@ == project_address(id),
                None => r is None,
            },
    {
        match self.releases.id {
            Some(id) => Some(project_url(id)),
            None => None,
        }
    }
}

} // verus!
