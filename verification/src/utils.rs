//! Human-readable durations, and the reading of a pull request's number
//! from what the user typed.

use crate::text::{
    decimal, decimal_text, join, join_text, lemma_decimal_round_trip, parse_u64, parse_u64_spec,
    same_text,
};
use vstd::prelude::*;
use vstd::string::StringExecFns;

verus! {

/// A count with its unit, in the plural above one: `3 hours`, `1 day`.
/// A count of zero or less has no text.
pub open spec fn unit_text(value: int, unit: Seq<char>) -> Option<Seq<char>> {
    if value > 1 {
        Some(decimal_text(value as nat) + seq![' '] + unit + seq!['s'])
    } else if value == 1 {
        Some(decimal_text(1) + seq![' '] + unit)
    } else {
        None
    }
}

/// The texts that are present in `parts`, in their order.
pub open spec fn present(parts: Seq<Option<Seq<char>>>) -> Seq<Seq<char>>
    decreases parts.len(),
{
    if parts.len() == 0 {
        Seq::<Seq<char>>::empty()
    } else {
        match parts.last() {
            Some(text) => present(parts.drop_last()).push(text),
            None => present(parts.drop_last()),
        }
    }
}

/// The non-zero units of a duration, largest first: days, hours, minutes, seconds.
pub open spec fn time_ago_parts(seconds: int) -> Seq<Seq<char>> {
    let minutes = seconds / 60;
    let hours = minutes / 60;
    present(
        seq![
            unit_text(hours / 24, "day"@),
            unit_text(hours % 24, "hour"@),
            unit_text(minutes % 60, "minute"@),
            unit_text(seconds % 60, "second"@),
        ],
    )
}

/// A duration of `seconds` in words. Its non-zero units are separated by
/// spaces, the last two by ` and `: `1 day 2 hours and 5 seconds`. A duration
/// of zero or less reads `0 seconds`.
pub open spec fn time_ago_text(seconds: int) -> Seq<char> {
    let parts = if seconds > 0 {
        time_ago_parts(seconds)
    } else {
        Seq::<Seq<char>>::empty()
    };
    if parts.len() == 0 {
        "0 seconds"@
    } else if parts.len() == 1 {
        parts[0]
    } else {
        join_text(parts.drop_last(), " "@) + " and "@ + parts.last()
    }
}

/// Formats a count with its unit; `None` for a count of zero or less.
pub fn format_unit(value: i64, unit: &str) -> (r: Option<String>)
    ensures
        match r {
            Some(s) => unit_text(value as int, unit@) == Some(s@),
            None => unit_text(value as int, unit@) is None,
        },
{
    if value > 0 {
        proof {
            reveal_strlit(" ");
            reveal_strlit("s");
        }
        let mut s = decimal(value as u64);
        s.append(" ");
        s.append(unit);
        if value > 1 {
            s.append("s");
        }
        proof {
            assert(" "@ =~= seq![' ']);
            assert("s"@ =~= seq!['s']);
            assert(unit_text(value as int, unit@)->0 =~= s@);
        }
        Some(s)
    } else {
        None
    }
}

/// Formats a duration given in seconds as days, hours, minutes and seconds.
pub fn format_seconds_to_time_ago(seconds: i64) -> (s: String)
    ensures
        s@ == time_ago_text(seconds as int),
{
    if seconds <= 0 {
        return String::from_str("0 seconds");
    }
    let minutes = seconds / 60;
    let hours = minutes / 60;
    let days = hours / 24;

    let remaining_seconds = seconds % 60;
    let remaining_minutes = minutes % 60;
    let remaining_hours = hours % 24;

    let ghost all = seq![
        unit_text(days as int, "day"@),
        unit_text(remaining_hours as int, "hour"@),
        unit_text(remaining_minutes as int, "minute"@),
        unit_text(remaining_seconds as int, "second"@),
    ];
    let mut result: Vec<String> = Vec::new();
    proof {
        assert(all.take(0) =~= Seq::<Option<Seq<char>>>::empty());
        assert(result.deep_view() =~= present(all.take(0)));
    }
    push_present(&mut result, format_unit(days, "day"), Ghost(all), Ghost(0));
    push_present(&mut result, format_unit(remaining_hours, "hour"), Ghost(all), Ghost(1));
    push_present(&mut result, format_unit(remaining_minutes, "minute"), Ghost(all), Ghost(2));
    push_present(&mut result, format_unit(remaining_seconds, "second"), Ghost(all), Ghost(3));
    let ghost parts = result.deep_view();
    proof {
        assert(all.take(4) =~= all);
        assert(parts == time_ago_parts(seconds as int));
        assert(parts.len() == result.len());
    }

    if result.len() == 0 {
        String::from_str("0 seconds")
    } else if result.len() == 1 {
        let single = result[0].clone();
        proof {
            assert(single@ == parts[0]);
        }
        single
    } else {
        let last = result.pop().unwrap();
        proof {
            assert(last@ == parts.last());
            assert(result.deep_view() =~= parts.drop_last());
        }
        let mut s = join(&result, " ");
        s.append(" and ");
        s.append(last.as_str());
        s
    }
}

/// Appends `part` to `result` if it is present.
fn push_present(
    result: &mut Vec<String>,
    part: Option<String>,
    Ghost(all): Ghost<Seq<Option<Seq<char>>>>,
    Ghost(k): Ghost<int>,
)
    requires
        0 <= k < all.len(),
        old(result).deep_view() == present(all.take(k)),
        match part {
            Some(s) => all[k] == Some(s@),
            None => all[k] is None,
        },
    ensures
        final(result).deep_view() == present(all.take(k + 1)),
{
    proof {
        assert(all.take(k + 1).drop_last() =~= all.take(k));
    }
    match part {
        Some(s) => {
            result.push(s);
            proof {
                assert(result.deep_view() =~= old(result).deep_view().push(s@));
            }
        },
        None => {},
    }
}

/// What the resolver reads of a URL: the domain name of its host, if the host
/// is one, and the segments of its path, if it has a path of segments.
#[derive(Clone, Debug)]
pub struct UrlParts {
    pub domain: Option<String>,
    pub segments: Option<Vec<String>>,
}

/// The parts of a URL as texts.
pub struct UrlPartsView {
    pub domain: Option<Seq<char>>,
    pub segments: Option<Seq<Seq<char>>>,
}

impl View for UrlParts {
    type V = UrlPartsView;

    open spec fn view(&self) -> UrlPartsView {
        UrlPartsView {
            domain: match self.domain {
                Some(domain) => Some(domain@),
                None => None,
            },
            segments: match self.segments {
                Some(segments) => Some(segments.deep_view()),
                None => None,
            },
        }
    }
}

/// The parts of the URL that `input` is, as the url crate parses it; `None`
/// where it takes `input` for no absolute URL.
pub uninterp spec fn parsed_url(input: Seq<char>) -> Option<UrlPartsView>;

/// `input` in lower case, as std's `str::to_lowercase` writes it.
pub uninterp spec fn lowercase_text(input: Seq<char>) -> Seq<char>;

/// The number in a pull request's address: the host is `github.com`, and the
/// path starts with `nixos`, `nixpkgs`, `pull` and the number. What follows
/// the number in the path is not looked at.
pub open spec fn id_in_url(url: UrlPartsView) -> Option<u64> {
    let segments = match url.segments {
        Some(segments) => segments,
        None => Seq::<Seq<char>>::empty(),
    };
    if url.domain == Some("github.com"@) && segments.len() >= 4 && segments[0] == "nixos"@
        && segments[1] == "nixpkgs"@ && segments[2] == "pull"@ {
        parse_u64_spec(segments[3])
    } else {
        None
    }
}

/// The number that `input` stands for: `input` read as a number, or else the
/// number in `url`, which is what `input` in lower case is as a URL.
pub open spec fn resolved_id(input: Seq<char>, url: Option<UrlPartsView>) -> Option<u64> {
    match parse_u64_spec(input) {
        Some(id) => Some(id),
        None => match url {
            Some(parts) => id_in_url(parts),
            None => None,
        },
    }
}

/// A decimal numeral resolves to its number, whatever it would be as a URL.
pub proof fn lemma_numeral_resolves(id: u64, url: Option<UrlPartsView>)
    ensures
        resolved_id(decimal_text(id as nat), url) == Some(id),
{
    lemma_decimal_round_trip(id);
}

/// What follows the number in the path of an address is ignored: with more
/// segments behind the first four, the address names the same pull request.
pub proof fn lemma_trailing_segments_are_ignored(
    domain: Option<Seq<char>>,
    segments: Seq<Seq<char>>,
    trailing: Seq<Seq<char>>,
)
    requires
        segments.len() >= 4,
    ensures
        id_in_url(UrlPartsView { domain, segments: Some(segments + trailing) }) == id_in_url(
            UrlPartsView { domain, segments: Some(segments) },
        ),
{
    let longer = segments + trailing;
    assert(longer[0] == segments[0]);
    assert(longer[1] == segments[1]);
    assert(longer[2] == segments[2]);
    assert(longer[3] == segments[3]);
}

/// What the user is told about an `input` that stands for no pull request.
pub open spec fn malformed_text(input: Seq<char>) -> Seq<char> {
    "malformed pull request ID or URL: "@ + input
        + ". expected format: <u64> or https://github.com/nixos/nixpkgs/pull/<u64>"@
}

/// Calls std: `str::to_lowercase`. The result is a function of the text
/// alone; the contract gives it the name `lowercase_text` and says nothing of
/// what it holds.
#[verifier::external_body]
fn to_lowercase(input: &str) -> (lower: String)
    ensures
        lower@ == lowercase_text(input@),
{
    input.to_lowercase()
}

/// Calls the url crate through reqwest: `Url::parse`, and on the URL it gave
/// `Url::domain` and `Url::path_segments`, each copied into owned strings.
/// `None` where `Url::parse` fails. The result is a function of the text
/// alone; the contract gives it the name `parsed_url` and says nothing of
/// what it holds.
#[verifier::external_body]
fn parse_url(input: &str) -> (url: Option<UrlParts>)
    ensures
        match url {
            Some(parts) => parsed_url(input@) == Some(parts@),
            None => parsed_url(input@) is None,
        },
{
    match reqwest::Url::parse(input) {
        Ok(url) => Some(
            UrlParts {
                domain: url.domain().map(|domain| domain.to_owned()),
                segments: url.path_segments().map(
                    |segments| segments.map(|segment| segment.to_owned()).collect(),
                ),
            },
        ),
        Err(_) => None,
    }
}

/// Reads the number of a pull request out of the parts of its address.
pub fn pull_request_in_url(url: &UrlParts) -> (id: Option<u64>)
    ensures
        id == id_in_url(url@),
{
    let on_github = match &url.domain {
        Some(domain) => same_text(domain.as_str(), "github.com"),
        None => false,
    };
    if !on_github {
        return None;
    }
    match &url.segments {
        Some(segments) => {
            proof {
                assert(segments.deep_view().len() == segments.len());
                if segments.len() >= 4 {
                    assert(segments.deep_view()[0] == segments[0]@);
                    assert(segments.deep_view()[1] == segments[1]@);
                    assert(segments.deep_view()[2] == segments[2]@);
                    assert(segments.deep_view()[3] == segments[3]@);
                }
            }
            if segments.len() >= 4 && same_text(segments[0].as_str(), "nixos") && same_text(
                segments[1].as_str(),
                "nixpkgs",
            ) && same_text(segments[2].as_str(), "pull") {
                parse_u64(segments[3].as_str())
            } else {
                None
            }
        },
        None => None,
    }
}

/// Resolves `input` where `url` holds what `input` in lower case is as a URL.
pub fn resolve_pull_request_id(input: &str, url: &Option<UrlParts>) -> (r: Result<u64, String>)
    ensures
        match resolved_id(
            input@,
            match *url {
                Some(parts) => Some(parts@),
                None => None,
            },
        ) {
            Some(id) => r == Ok::<u64, String>(id),
            None => r matches Err(message) && message@ == malformed_text(input@),
        },
{
    if let Some(id) = parse_u64(input) {
        return Ok(id);
    }
    if let Some(parts) = url {
        if let Some(id) = pull_request_in_url(parts) {
            return Ok(id);
        }
    }
    let mut message = String::from_str("malformed pull request ID or URL: ");
    message.append(input);
    message.append(". expected format: <u64> or https://github.com/nixos/nixpkgs/pull/<u64>");
    Err(message)
}

/// Resolves what the user typed to the number of a pull request: a decimal
/// number, or the address of a pull request of Nixpkgs on GitHub, in any
/// mixture of upper and lower case.
pub fn parse_pull_request_id(input: &str) -> (r: Result<u64, String>)
    ensures
        match resolved_id(input@, parsed_url(lowercase_text(input@))) {
            Some(id) => r == Ok::<u64, String>(id),
            None => r matches Err(message) && message@ == malformed_text(input@),
        },
{
    if let Some(id) = parse_u64(input) {
        return Ok(id);
    }
    // Downcase URL since GitHub URLs are case-insensitive (e.g. "nixos" vs "NixOS").
    let lower = to_lowercase(input);
    let url = parse_url(lower.as_str());
    resolve_pull_request_id(input, &url)
}

} // verus!
