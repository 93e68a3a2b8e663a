use vstd::prelude::*;

verus! {

/// The closed set of failure kinds of the client.
#[derive(PartialEq, Eq, Structural, Clone, Copy, Debug)]
pub enum ErrorKind {
    InvalidRequest,
    InvalidRequestJson,
    InvalidResponseJson,
    NonSuccessStatus(u16),
    ResponseRead,
    Http,
    Io,
    Other,
}

/// An error of the client: a kind, the text of an underlying cause, and a message.
#[derive(Debug)]
pub struct HttpError {
    kind: ErrorKind,
    cause: Option<String>,
    message: Option<String>,
}

/// The view of an optional string.
pub open spec fn opt_text(s: Option<String>) -> Option<Seq<char>> {
    match s {
        Some(t) => Some(t@),
        None => None,
    }
}

/// The decimal digit `d` (below ten) as a character.
pub open spec fn digit_char(d: nat) -> char {
    if d == 0 { '0' }
    else if d == 1 { '1' }
    else if d == 2 { '2' }
    else if d == 3 { '3' }
    else if d == 4 { '4' }
    else if d == 5 { '5' }
    else if d == 6 { '6' }
    else if d == 7 { '7' }
    else if d == 8 { '8' }
    else { '9' }
}

/// `n` written in decimal, without leading zeros.
pub open spec fn decimal(n: nat) -> Seq<char>
    decreases n,
{
    if n < 10 {
        seq![digit_char(n)]
    } else {
        decimal(n / 10).push(digit_char(n % 10))
    }
}

/// The fixed text that opens the rendering of an error of kind `k`, if any.
pub open spec fn kind_prefix(k: ErrorKind) -> Option<Seq<char>> {
    match k {
        ErrorKind::InvalidRequest => Some("invalid request"@),
        ErrorKind::InvalidRequestJson => Some("invalid request json"@),
        ErrorKind::InvalidResponseJson => Some("could not deserialize JSON response"@),
        ErrorKind::NonSuccessStatus(s) => Some(
            "Request failed with status "@ + decimal(s as nat) + "("@ + decimal(s as nat) + ")"@,
        ),
        ErrorKind::ResponseRead => Some("could not read response body"@),
        ErrorKind::Http => None,
        ErrorKind::Io => Some("io error"@),
        ErrorKind::Other => None,
    }
}

/// Appends `next` to what was written so far, with ": " only where both are present.
pub open spec fn join_part(sofar: Option<Seq<char>>, next: Option<Seq<char>>) -> Option<Seq<char>> {
    match next {
        None => sofar,
        Some(n) => match sofar {
            Some(s) => Some(s + ": "@ + n),
            None => Some(n),
        },
    }
}

/// Rendering of an error made of a kind, a message and a cause, in that order.
pub open spec fn render_parts(k: ErrorKind, message: Option<Seq<char>>, cause: Option<Seq<char>>) -> Seq<char> {
    match join_part(join_part(kind_prefix(k), message), cause) {
        Some(t) => t,
        None => Seq::empty(),
    }
}

/// Appends the decimal digits of `n` to `out`.
fn push_decimal(out: &mut String, n: u16)
    ensures
        final(out)@ == old(out)@ + decimal(n as nat),
    decreases n,
{
    if n >= 10 {
        push_decimal(out, n / 10);
    }
    let d = n % 10;
    proof {
        reveal_strlit("0");
        reveal_strlit("1");
        reveal_strlit("2");
        reveal_strlit("3");
        reveal_strlit("4");
        reveal_strlit("5");
        reveal_strlit("6");
        reveal_strlit("7");
        reveal_strlit("8");
        reveal_strlit("9");
    }
    let digit = if d == 0 { "0" }
        else if d == 1 { "1" }
        else if d == 2 { "2" }
        else if d == 3 { "3" }
        else if d == 4 { "4" }
        else if d == 5 { "5" }
        else if d == 6 { "6" }
        else if d == 7 { "7" }
        else if d == 8 { "8" }
        else { "9" };
    out.append(digit);
    assert(decimal(n as nat) =~= if n < 10 { seq![digit_char(d as nat)] } else {
        decimal((n / 10) as nat).push(digit_char(d as nat))
    });
}

/// Appends `part` to `out`, preceded by ": " when something was written before it.
fn push_part(out: &mut String, wrote: bool, part: &str) -> (r: bool)
    ensures
        r,
        final(out)@ == if wrote { old(out)@ + ": "@ + part@ } else { old(out)@ + part@ },
{
    if wrote {
        out.append(": ");
    }
    out.append(part);
    true
}

impl HttpError {
    /// A status error carries a three-digit code.
    #[verifier::type_invariant]
    spec fn status_in_range(&self) -> bool {
        self.kind matches ErrorKind::NonSuccessStatus(s) ==> 100 <= s <= 999
    }

    /// The kind of the error.
    pub closed spec fn kind(&self) -> ErrorKind {
        self.kind
    }

    /// The text of the underlying cause, if any.
    pub closed spec fn cause(&self) -> Option<Seq<char>> {
        opt_text(self.cause)
    }

    /// The human message, if any.
    pub closed spec fn message(&self) -> Option<Seq<char>> {
        opt_text(self.message)
    }

    /// What `to_string` renders for this error.
    pub open spec fn rendered(&self) -> Seq<char> {
        render_parts(self.kind(), self.message(), self.cause())
    }

    pub(crate) fn new(kind: ErrorKind, cause: Option<String>, message: Option<String>) -> (r: Self)
        requires
            kind matches ErrorKind::NonSuccessStatus(s) ==> 100 <= s <= 999,
        ensures
            r.kind() == kind,
            r.cause() == opt_text(cause),
            r.message() == opt_text(message),
    {
        HttpError { kind, cause, message }
    }

    pub fn new_invalid_request(cause: String, message: Option<String>) -> (r: Self)
        ensures
            r.kind() == ErrorKind::InvalidRequest,
            r.cause() == Some(cause@),
            r.message() == opt_text(message),
    {
        HttpError { kind: ErrorKind::InvalidRequest, cause: Some(cause), message }
    }

    pub fn new_io(cause: String, message: Option<String>) -> (r: Self)
        ensures
            r.kind() == ErrorKind::Io,
            r.cause() == Some(cause@),
            r.message() == opt_text(message),
    {
        HttpError { kind: ErrorKind::Io, cause: Some(cause), message }
    }

    pub fn new_http(cause: String) -> (r: Self)
        ensures
            r.kind() == ErrorKind::Http,
            r.cause() == Some(cause@),
            r.message() == None::<Seq<char>>,
    {
        HttpError { kind: ErrorKind::Http, cause: Some(cause), message: None }
    }

    pub fn new_response_read(message: Option<String>, cause: String) -> (r: Self)
        ensures
            r.kind() == ErrorKind::ResponseRead,
            r.cause() == Some(cause@),
            r.message() == opt_text(message),
    {
        HttpError { kind: ErrorKind::ResponseRead, cause: Some(cause), message }
    }

    pub fn new_custom(message: String) -> (r: Self)
        ensures
            r.kind() == ErrorKind::Other,
            r.cause() == None::<Seq<char>>,
            r.message() == Some(message@),
    {
        HttpError { kind: ErrorKind::Other, cause: None, message: Some(message) }
    }

    pub fn new_custom_with_cause(message: String, cause: String) -> (r: Self)
        ensures
            r.kind() == ErrorKind::Other,
            r.cause() == Some(cause@),
            r.message() == Some(message@),
    {
        HttpError { kind: ErrorKind::Other, cause: Some(cause), message: Some(message) }
    }

    pub fn kind_of(&self) -> (r: ErrorKind)
        ensures
            r == self.kind(),
    {
        self.kind
    }

    pub fn is_invalid_request(&self) -> (r: bool)
        ensures
            r == (self.kind() == ErrorKind::InvalidRequest),
    {
        match self.kind {
            ErrorKind::InvalidRequest => true,
            _ => false,
        }
    }

    pub fn as_status(&self) -> (r: Option<u16>)
        ensures
            r matches Some(s) ==> 100 <= s <= 999,
            r == (match self.kind() {
                ErrorKind::NonSuccessStatus(s) => Some(s),
                _ => None,
            }),
    {
        proof {
            use_type_invariant(self);
        }
        match self.kind {
            ErrorKind::NonSuccessStatus(s) => Some(s),
            _ => None,
        }
    }

    pub fn is_not_found(&self) -> (r: bool)
        ensures
            r == (self.kind() == ErrorKind::NonSuccessStatus(404)),
    {
        match self.as_status() {
            Some(s) => s == 404,
            None => false,
        }
    }

    /// Renders the error: the kind's prefix, the message and the cause, each
    /// separated by ": " only where something precedes it.
    pub fn to_string(&self) -> (r: String)
        ensures
            r@ == self.rendered(),
    {
        let mut out = String::new();
        let wrote = match self.kind {
            ErrorKind::InvalidRequest => push_part(&mut out, false, "invalid request"),
            ErrorKind::InvalidRequestJson => push_part(&mut out, false, "invalid request json"),
            ErrorKind::InvalidResponseJson => push_part(
                &mut out,
                false,
                "could not deserialize JSON response",
            ),
            ErrorKind::NonSuccessStatus(s) => {
                out.append("Request failed with status ");
                push_decimal(&mut out, s);
                out.append("(");
                push_decimal(&mut out, s);
                out.append(")");
                true
            },
            ErrorKind::ResponseRead => push_part(&mut out, false, "could not read response body"),
            ErrorKind::Http => false,
            ErrorKind::Io => push_part(&mut out, false, "io error"),
            ErrorKind::Other => false,
        };
        proof {
            assert(wrote == kind_prefix(self.kind).is_some());
            assert(kind_prefix(self.kind) matches Some(p) ==> out@ =~= p);
            assert(kind_prefix(self.kind) is None ==> out@ =~= Seq::<char>::empty());
        }
        let wrote = match &self.message {
            Some(m) => push_part(&mut out, wrote, m.as_str()),
            None => wrote,
        };
        proof {
            let j = join_part(kind_prefix(self.kind), opt_text(self.message));
            assert(wrote == j.is_some());
            assert(j matches Some(p) ==> out@ =~= p);
            assert(j is None ==> out@ =~= Seq::<char>::empty());
        }
        match &self.cause {
            Some(c) => {
                push_part(&mut out, wrote, c.as_str());
            },
            None => {},
        }
        proof {
            let j = join_part(
                join_part(kind_prefix(self.kind), opt_text(self.message)),
                opt_text(self.cause),
            );
            assert(j matches Some(p) ==> out@ =~= p);
            assert(j is None ==> out@ =~= Seq::<char>::empty());
        }
        out
    }
}

} // verus!
