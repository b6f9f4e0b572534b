//! Hosts with a port, as a user writes them.
use crate::text::{
    chars_of, decimal, digit_value, law_decimal_reads_back, number, parse_u16, string_of,
    NumberError,
};
use vstd::prelude::*;
use vstd::string::*;

verus! {

/// Why a text names no host.
#[derive(Debug)]
pub enum HostError {
    /// It has an opening bracket, and is not a host in brackets followed by
    /// nothing or by a port.
    Invalid(String),
    /// What stands for the port is not a port.
    Port(NumberError),
}

pub enum HostErrorView {
    Invalid(Seq<char>),
    Port(NumberError),
}

impl View for HostError {
    type V = HostErrorView;

    open spec fn view(&self) -> HostErrorView {
        match self {
            HostError::Invalid(input) => HostErrorView::Invalid(input@),
            HostError::Port(reason) => HostErrorView::Port(*reason),
        }
    }
}

/// The message for an error.
pub open spec fn host_error_words(error: HostErrorView) -> Seq<char> {
    match error {
        HostErrorView::Invalid(input) => "invalid host value: "@ + input,
        HostErrorView::Port(_) => "host port must be a number"@,
    }
}

impl HostError {
    /// The message for an error.
    pub fn message(&self) -> (message: String)
        ensures
            message@ == host_error_words(self@),
    {
        match self {
            HostError::Invalid(input) => "invalid host value: ".to_owned().concat(input.as_str()),
            HostError::Port(_) => "host port must be a number".to_owned(),
        }
    }
}

/// A host and the port that a text stands for.
pub open spec fn with_port(host: Seq<char>, port: Seq<char>) -> Result<
    (Seq<char>, Option<u16>),
    HostErrorView,
> {
    match number(port, u16::MAX as nat) {
        Ok(n) => Ok((host, Some(n as u16))),
        Err(reason) => Err(HostErrorView::Port(reason)),
    }
}

/// The host and the port that a text stands for. A port follows a colon. A host
/// that has colons itself is put in brackets to have a port; without brackets,
/// a text with more than one colon is all host.
pub open spec fn host_and_port(input: Seq<char>) -> Result<
    (Seq<char>, Option<u16>),
    HostErrorView,
> {
    if input.len() > 0 && input[0] == '[' {
        let rest = input.skip(1);
        match rest.index_of_first(']') {
            None => Err(HostErrorView::Invalid(input)),
            Some(closing) => {
                let host = rest.take(closing);
                let suffix = rest.skip(closing + 1);
                if suffix.len() == 0 {
                    Ok((host, None))
                } else if suffix[0] != ':' {
                    Err(HostErrorView::Invalid(input))
                } else {
                    with_port(host, suffix.skip(1))
                }
            },
        }
    } else {
        match input.index_of_first(':') {
            Some(colon) if !input.skip(colon + 1).contains(':') => with_port(
                input.take(colon),
                input.skip(colon + 1),
            ),
            _ => Ok((input, None)),
        }
    }
}

/// The first place of a character is where it is and before which it is not.
proof fn lemma_first(s: Seq<char>, c: char, at: int)
    requires
        0 <= at < s.len(),
        s[at] == c,
        forall|j: int| 0 <= j < at ==> s[j] != c,
    ensures
        s.index_of_first(c) == Some(at),
{
    s.index_of_first_ensures(c);
    assert(s.contains(s[at]));
}

/// The first place of a character at or after `from`, counted from there.
fn find_from(v: &Vec<char>, from: usize, c: char) -> (found: Option<usize>)
    requires
        from <= v@.len(),
    ensures
        match (found, v@.skip(from as int).index_of_first(c)) {
            (Some(i), Some(j)) => from + j == i && from <= i < v@.len(),
            (None, None) => true,
            _ => false,
        },
        found is Some == v@.skip(from as int).contains(c),
{
    let ghost rest = v@.skip(from as int);
    let mut i: usize = from;
    while i < v.len()
        invariant
            from <= i <= v@.len(),
            rest == v@.skip(from as int),
            forall|j: int| 0 <= j < i - from ==> rest[j] != c,
        decreases v@.len() - i,
    {
        if v[i] == c {
            proof {
                lemma_first(rest, c, i - from);
                assert(rest.contains(rest[i - from]));
            }
            return Some(i);
        }
        i = i + 1;
    }
    proof {
        rest.index_of_first_ensures(c);
        assert(!rest.contains(c));
    }
    None
}

/// Reads the port after a host.
fn port_after(host: String, v: &Vec<char>, from: usize) -> (r: Result<
    (String, Option<u16>),
    HostError,
>)
    requires
        from <= v@.len(),
    ensures
        host_view(r) == with_port(host@, v@.skip(from as int)),
{
    let port = string_of(v, from, v.len());
    assert(v@.subrange(from as int, v@.len() as int) =~= v@.skip(from as int));
    match parse_u16(port.as_str()) {
        Ok(port) => Ok((host, Some(port))),
        Err(reason) => Err(HostError::Port(reason)),
    }
}

/// The view of a host with its port.
pub open spec fn host_view(r: Result<(String, Option<u16>), HostError>) -> Result<
    (Seq<char>, Option<u16>),
    HostErrorView,
> {
    match r {
        Ok((host, port)) => Ok((host@, port)),
        Err(error) => Err(error@),
    }
}

/// Reads a host with a port or without.
pub fn parse_host_and_port(input: &str) -> (r: Result<(String, Option<u16>), HostError>)
    ensures
        host_view(r) == host_and_port(input@),
{
    let v = chars_of(input);
    if v.len() > 0 && v[0] == '[' {
        let ghost rest = v@.skip(1);
        return match find_from(&v, 1, ']') {
            None => Err(HostError::Invalid(input.to_owned())),
            Some(closing) => {
                let host = string_of(&v, 1, closing);
                assert(host@ =~= rest.take(closing - 1));
                let ghost suffix = rest.skip(closing as int);
                assert(suffix =~= v@.skip(closing + 1));
                if closing + 1 == v.len() {
                    Ok((host, None))
                } else if v[closing + 1] != ':' {
                    Err(HostError::Invalid(input.to_owned()))
                } else {
                    assert(suffix.skip(1) =~= v@.skip(closing + 2));
                    port_after(host, &v, closing + 2)
                }
            },
        };
    }
    assert(v@.skip(0) =~= v@);
    if let Some(colon) = find_from(&v, 0, ':') {
        if find_from(&v, colon + 1, ':').is_none() {
            let host = string_of(&v, 0, colon);
            assert(host@ =~= v@.take(colon as int));
            return port_after(host, &v, colon + 1);
        }
    }
    Ok((input.to_owned(), None))
}

proof fn lemma_decimal_has_no(n: nat, c: char)
    requires
        digit_value(c) is None,
    ensures
        !decimal(n).contains(c),
    decreases n,
{
    if n >= 10 {
        lemma_decimal_has_no(n / 10, c);
        assert forall|i: int| 0 <= i < decimal(n).len() implies decimal(n)[i] != c by {
            if i < decimal(n).len() - 1 {
                assert(decimal(n)[i] == decimal(n / 10)[i]);
                assert(decimal(n / 10).contains(decimal(n / 10)[i]));
            }
        }
    }
}

/// A host without colons and without an opening bracket is read as it is.
pub proof fn law_plain_host(host: Seq<char>)
    requires
        !host.contains(':'),
        host.len() > 0 ==> host[0] != '[',
    ensures
        host_and_port(host) == Ok::<_, HostErrorView>((host, None::<u16>)),
{
    host.index_of_first_ensures(':');
}

/// Such a host is read back together with a port after a colon.
pub proof fn law_host_with_port(host: Seq<char>, port: u16)
    requires
        !host.contains(':'),
        host.len() > 0 ==> host[0] != '[',
    ensures
        host_and_port(host + seq![':'] + decimal(port as nat)) == Ok::<_, HostErrorView>(
            (host, Some(port)),
        ),
{
    let input = host + seq![':'] + decimal(port as nat);
    assert forall|j: int| 0 <= j < host.len() implies input[j] != ':' by {
        assert(host.contains(host[j]));
    }
    lemma_first(input, ':', host.len() as int);
    lemma_decimal_has_no(port as nat, ':');
    assert(input.take(host.len() as int) =~= host);
    assert(input.skip(host.len() as int + 1) =~= decimal(port as nat));
    law_decimal_reads_back(port as nat, u16::MAX as nat);
}

/// A host in brackets is read without them, whatever colons it has.
pub proof fn law_bracketed_host(host: Seq<char>)
    requires
        !host.contains(']'),
    ensures
        host_and_port(seq!['['] + host + seq![']']) == Ok::<_, HostErrorView>((host, None::<u16>)),
{
    let input = seq!['['] + host + seq![']'];
    let rest = input.skip(1);
    assert forall|j: int| 0 <= j < host.len() implies rest[j] != ']' by {
        assert(rest[j] == host[j]);
        assert(host.contains(host[j]));
    }
    lemma_first(rest, ']', host.len() as int);
    assert(rest.take(host.len() as int) =~= host);
    assert(rest.skip(host.len() as int + 1) =~= Seq::<char>::empty());
}

/// A host in brackets is read back together with a port after a colon.
pub proof fn law_bracketed_host_with_port(host: Seq<char>, port: u16)
    requires
        !host.contains(']'),
    ensures
        host_and_port(seq!['['] + host + seq![']', ':'] + decimal(port as nat)) == Ok::<
            _,
            HostErrorView,
        >((host, Some(port))),
{
    let input = seq!['['] + host + seq![']', ':'] + decimal(port as nat);
    let rest = input.skip(1);
    assert forall|j: int| 0 <= j < host.len() implies rest[j] != ']' by {
        assert(rest[j] == host[j]);
        assert(host.contains(host[j]));
    }
    lemma_first(rest, ']', host.len() as int);
    assert(rest.take(host.len() as int) =~= host);
    let suffix = rest.skip(host.len() as int + 1);
    assert(suffix =~= seq![':'] + decimal(port as nat));
    assert(suffix.skip(1) =~= decimal(port as nat));
    law_decimal_reads_back(port as nat, u16::MAX as nat);
}

/// A text with more than one colon and no opening bracket is all host.
pub proof fn law_unbracketed_colons_are_host(input: Seq<char>, i: int, j: int)
    requires
        0 <= i < j < input.len(),
        input[i] == ':',
        input[j] == ':',
        input[0] != '[',
    ensures
        host_and_port(input) == Ok::<_, HostErrorView>((input, None::<u16>)),
{
    input.index_of_first_ensures(':');
    assert(input.contains(input[i]));
    let colon = input.index_of_first(':')->0;
    assert(colon <= i);
    assert(input.skip(colon + 1)[j - colon - 1] == ':');
}

/// Where a text has one colon and no opening bracket, what is before the colon
/// is the host and what is after it has to be a port.
pub proof fn law_text_after_the_colon_is_the_port(host: Seq<char>, port: Seq<char>)
    requires
        !host.contains(':'),
        host.len() > 0 ==> host[0] != '[',
        !port.contains(':'),
    ensures
        host_and_port(host + seq![':'] + port) == match number(port, 65535) {
            Ok(n) => Ok::<_, HostErrorView>((host, Some(n as u16))),
            Err(reason) => Err(HostErrorView::Port(reason)),
        },
{
    let input = host + seq![':'] + port;
    assert forall|j: int| 0 <= j < host.len() implies input[j] != ':' by {
        assert(host.contains(host[j]));
    }
    lemma_first(input, ':', host.len() as int);
    assert(input.take(host.len() as int) =~= host);
    assert(input.skip(host.len() as int + 1) =~= port);
    assert(input[0] != '[');
}

/// What is after a host in brackets and a colon has to be a port.
pub proof fn law_text_after_the_bracket_is_the_port(host: Seq<char>, port: Seq<char>)
    requires
        !host.contains(']'),
    ensures
        host_and_port(seq!['['] + host + seq![']', ':'] + port) == match number(port, 65535) {
            Ok(n) => Ok::<_, HostErrorView>((host, Some(n as u16))),
            Err(reason) => Err(HostErrorView::Port(reason)),
        },
{
    let input = seq!['['] + host + seq![']', ':'] + port;
    let rest = input.skip(1);
    assert forall|j: int| 0 <= j < host.len() implies rest[j] != ']' by {
        assert(rest[j] == host[j]);
        assert(host.contains(host[j]));
    }
    lemma_first(rest, ']', host.len() as int);
    assert(rest.take(host.len() as int) =~= host);
    let suffix = rest.skip(host.len() as int + 1);
    assert(suffix =~= seq![':'] + port);
    assert(suffix.skip(1) =~= port);
}

/// An opening bracket that is never closed is refused, with the whole text.
pub proof fn law_unclosed_bracket_is_refused(rest: Seq<char>)
    requires
        !rest.contains(']'),
    ensures
        host_and_port(seq!['['] + rest) == Err::<(Seq<char>, Option<u16>), _>(
            HostErrorView::Invalid(seq!['['] + rest),
        ),
{
    let input = seq!['['] + rest;
    assert(input.skip(1) =~= rest);
    rest.index_of_first_ensures(']');
}

/// Anything but a colon after a closing bracket is refused, with the whole text.
pub proof fn law_text_after_bracket_is_refused(host: Seq<char>, c: char, rest: Seq<char>)
    requires
        !host.contains(']'),
        c != ':',
    ensures
        ({
            let input = seq!['['] + host + seq![']', c] + rest;
            host_and_port(input) == Err::<(Seq<char>, Option<u16>), _>(
                HostErrorView::Invalid(input),
            )
        }),
{
    let input = seq!['['] + host + seq![']', c] + rest;
    let tail = input.skip(1);
    assert forall|j: int| 0 <= j < host.len() implies tail[j] != ']' by {
        assert(tail[j] == host[j]);
        assert(host.contains(host[j]));
    }
    lemma_first(tail, ']', host.len() as int);
    assert(tail.skip(host.len() as int + 1)[0] == c);
}

/// What is said of a text that names no host.
pub proof fn law_host_errors_in_words(input: Seq<char>, reason: NumberError)
    ensures
        host_error_words(HostErrorView::Invalid(input)) == "invalid host value: "@ + input,
        host_error_words(HostErrorView::Port(reason)) == "host port must be a number"@,
{
}

} // verus!
