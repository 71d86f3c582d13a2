//! The NEL error type: a class and a subclass, the phase they belong to,
//! and the dotted form used on the wire.

use vstd::prelude::*;

verus! {

/// A classified network failure, as the NEL report format names it: a
/// class (`dns`, `tcp`, `tls`, `http`, `abandoned`, `unknown`, ...) and a
/// subclass within it (`name_not_resolved`, `cert.date_invalid`, ...).
#[derive(Debug, Clone, PartialEq, Eq, Hash)]
pub struct Error {
    pub class: String,
    pub subclass: String,
}

impl View for Error {
    type V = (Seq<char>, Seq<char>);

    open spec fn view(&self) -> (Seq<char>, Seq<char>) {
        (self.class@, self.subclass@)
    }
}

/// The view of an optional classification.
pub open spec fn option_view(e: Option<Error>) -> Option<(Seq<char>, Seq<char>)> {
    match e {
        Some(e) => Some(e@),
        None => None,
    }
}

/// The phase of the request in which a failure of the given class happens.
pub open spec fn phase_of(class: Seq<char>) -> Seq<char> {
    if class == "dns"@ {
        "dns"@
    } else if class == "tcp"@ || class == "udp"@ || class == "tls"@ {
        "connection"@
    } else if class == "http"@ || class == "abandoned"@ {
        "application"@
    } else {
        "unknown"@
    }
}

/// The wire form of a classification: `class.subclass`, except that the
/// `unknown` and `abandoned` classes are written alone.
pub open spec fn wire_form(class: Seq<char>, subclass: Seq<char>) -> Seq<char> {
    if class == "unknown"@ {
        "unknown"@
    } else if class == "abandoned"@ {
        "abandoned"@
    } else {
        class + "."@ + subclass
    }
}

/// Whether `s` holds exactly the text of `lit`.
fn text_is(s: &String, lit: &str) -> (b: bool)
    ensures
        b == (s@ == lit@),
{
    let owned: String = lit.to_owned();
    *s == owned
}

impl Error {
    /// Builds the classification `class.subclass`.
    pub fn new(class: &str, subclass: &str) -> (e: Error)
        ensures
            e.class@ == class@,
            e.subclass@ == subclass@,
    {
        Error { class: class.to_owned(), subclass: subclass.to_owned() }
    }

    /// The phase of the request in which this failure happened: `dns`,
    /// `connection`, `application`, or `unknown` for a class outside the
    /// known ones.
    pub fn phase(&self) -> (p: String)
        ensures
            p@ == phase_of(self.class@),
    {
        if text_is(&self.class, "dns") {
            "dns".to_owned()
        } else if text_is(&self.class, "tcp") || text_is(&self.class, "udp") || text_is(
            &self.class,
            "tls",
        ) {
            "connection".to_owned()
        } else if text_is(&self.class, "http") || text_is(&self.class, "abandoned") {
            "application".to_owned()
        } else {
            "unknown".to_owned()
        }
    }

    /// The NEL `type` string of this failure, e.g. `tls.cert.date_invalid`.
    pub fn to_string(&self) -> (s: String)
        ensures
            s@ == wire_form(self.class@, self.subclass@),
    {
        if text_is(&self.class, "unknown") {
            "unknown".to_owned()
        } else if text_is(&self.class, "abandoned") {
            "abandoned".to_owned()
        } else {
            let mut s = self.class.clone();
            s.append(".");
            s.append(self.subclass.as_str());
            s
        }
    }
}

} // verus!
