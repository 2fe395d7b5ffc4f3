use vstd::prelude::*;

use crate::error::{is_parse_error, rejects_text, JiniError};
use crate::text::{has_char, lemma_replaced_absent, occurs_in, replace_all, replaced};
use crate::segments::{drop_empty, non_empty, pieces_view, regex_compiles, regex_split, split_by_pattern, DELIMITERS};
use crate::RJini;

verus! {

/// `key` and `value` written as the predicate `[key="value"]`.
pub open spec fn attr_text(key: Seq<char>, value: Seq<char>) -> Seq<char> {
    "["@ + key + "=\""@ + value + "\"]"@
}

/// Removing a segment that does not occur in the path, followed by `/`,
/// leaves the path as it was.
pub proof fn lemma_remove_absent_node(path: Seq<char>, node: Seq<char>)
    requires
        !occurs_in(path, node + "/"@),
    ensures
        replaced(path, node + "/"@, Seq::empty()) == path,
{
    reveal_strlit("/");
    lemma_replaced_absent(path, node + "/"@, Seq::empty());
}

/// Removing a property that does not occur in the path leaves the path as
/// it was.
pub proof fn lemma_remove_absent_property(path: Seq<char>, property: Seq<char>)
    requires
        !occurs_in(path, property + "()"@),
    ensures
        replaced(path, property + "()"@, Seq::empty()) == path,
{
    reveal_strlit("()");
    lemma_replaced_absent(path, property + "()"@, Seq::empty());
}

impl<'a> From<&'a str> for RJini {
    /// A path whose text is `xpath`, taken as it stands.
    fn from(xpath: &'a str) -> (r: RJini)
        ensures
            r.xpath@ == xpath@,
    {
        RJini { xpath: String::from_str(xpath) }
    }
}

// What `from` returns is stated by its own `ensures` above.
impl<'a> vstd::std_specs::convert::FromSpecImpl<&'a str> for RJini {
    open spec fn obeys_from_spec() -> bool {
        false
    }

    open spec fn from_spec(v: &'a str) -> RJini {
        arbitrary()
    }
}

impl RJini {
    /// The path with `node` and a `/` after it at its end.
    ///
    /// Fails when `node` holds a space.
    pub fn add_node(&self, node: &str) -> (r: Result<RJini, JiniError>)
        ensures
            match r {
                Ok(j) => !node@.contains(' ') && j.xpath@ == self.xpath@ + node@ + "/"@,
                Err(e) => node@.contains(' ') && rejects_text(e, node@),
            },
    {
        match Self::validate(node) {
            Err(e) => Err(e),
            Ok(()) => {
                let b = self.xpath.clone().concat(node).concat("/");
                Ok(RJini { xpath: b })
            },
        }
    }

    /// The path with every occurrence of `node` followed by `/` taken out.
    ///
    /// The text is searched as it stands, so the pattern may also match
    /// the end of a longer segment.
    pub fn remove_node(&self, node: &str) -> (r: RJini)
        ensures
            r.xpath@ == replaced(self.xpath@, node@ + "/"@, Seq::empty()),
    {
        let pat = String::from_str(node).concat("/");
        let b = replace_all(self.xpath.as_str(), pat.as_str(), "");
        proof {
            reveal_strlit("");
            assert(""@ =~= Seq::<char>::empty());
        }
        RJini { xpath: b }
    }

    /// The path with every occurrence of `origin` replaced by `new`.
    ///
    /// The text is searched as it stands, so `origin` may match inside a
    /// longer segment. Fails when `new` holds a space.
    pub fn replace_node(&self, origin: &str, new: &str) -> (r: Result<RJini, JiniError>)
        ensures
            match r {
                Ok(j) => !new@.contains(' ') && j.xpath@ == replaced(self.xpath@, origin@, new@),
                Err(e) => new@.contains(' ') && rejects_text(e, new@),
            },
    {
        match Self::validate(new) {
            Err(e) => Err(e),
            Ok(()) => {
                let x = replace_all(self.xpath.as_str(), origin, new);
                Ok(RJini { xpath: x })
            },
        }
    }

    /// The segments of the path: the pieces between the delimiters `/` and
    /// `//` that are not empty, in order.
    ///
    /// Fails only when the delimiter pattern does not compile.
    pub fn nodes(&self) -> (r: Result<Vec<&str>, JiniError>)
        ensures
            r is Ok <==> regex_compiles(DELIMITERS@),
            match r {
                Ok(v) => pieces_view(v@) == non_empty(regex_split(DELIMITERS@, self.xpath@)),
                Err(e) => is_parse_error(e, DELIMITERS@),
            },
    {
        match split_by_pattern(DELIMITERS, self.xpath.as_str()) {
            Ok(pieces) => Ok(drop_empty(pieces)),
            Err(_) => Err(JiniError::Parse { pattern: String::from_str(DELIMITERS) }),
        }
    }

    /// The path with the segment `property()` and a `/` after it at its end.
    ///
    /// Fails when `property` holds a space.
    pub fn add_property(&self, property: &str) -> (r: Result<RJini, JiniError>)
        ensures
            match r {
                Ok(j) => !property@.contains(' ') && j.xpath@ == self.xpath@ + property@ + "()"@
                    + "/"@,
                Err(e) => property@.contains(' ') && rejects_text(e, property@),
            },
    {
        match Self::validate(property) {
            Err(e) => Err(e),
            Ok(()) => {
                let node = String::from_str(property).concat("()");
                proof {
                    reveal_strlit("()");
                    assert(!node@.contains(' ')) by {
                        if node@.contains(' ') {
                            let k = choose|k: int| 0 <= k < node@.len() && node@[k] == ' ';
                            if k < property@.len() {
                                assert(property@[k] == ' ');
                            }
                        }
                    }
                }
                Self::add_node(self, node.as_str())
            },
        }
    }

    /// The path with every occurrence of `property()` taken out.
    pub fn remove_property(&self, property: &str) -> (r: RJini)
        ensures
            r.xpath@ == replaced(self.xpath@, property@ + "()"@, Seq::empty()),
    {
        let pat = String::from_str(property).concat("()");
        let x = replace_all(self.xpath.as_str(), pat.as_str(), "");
        proof {
            reveal_strlit("");
            assert(""@ =~= Seq::<char>::empty());
        }
        RJini { xpath: x }
    }

    /// The path with the predicate `[key="value"]` written right after it,
    /// with no `/` between.
    ///
    /// Fails when the predicate holds a space, that is when `key` or
    /// `value` does.
    pub fn add_attr(&self, key: &str, value: &str) -> (r: Result<RJini, JiniError>)
        ensures
            match r {
                Ok(j) => !attr_text(key@, value@).contains(' ') && j.xpath@ == self.xpath@
                    + attr_text(key@, value@),
                Err(e) => attr_text(key@, value@).contains(' ') && rejects_text(
                    e,
                    attr_text(key@, value@),
                ),
            },
    {
        let node = String::from_str("[").concat(key).concat("=\"").concat(value).concat("\"]");
        match Self::validate(node.as_str()) {
            Err(e) => Err(e),
            Ok(()) => {
                let x = self.xpath.clone().concat(node.as_str());
                Ok(RJini { xpath: x })
            },
        }
    }

    /// The path's text.
    pub fn as_str(&self) -> (r: &str)
        ensures
            r@ == self.xpath@,
    {
        self.xpath.as_str()
    }

    /// Refuses `node` when it holds a space.
    fn validate(node: &str) -> (r: Result<(), JiniError>)
        ensures
            match r {
                Ok(_) => !node@.contains(' '),
                Err(e) => node@.contains(' ') && rejects_text(e, node@),
            },
    {
        if has_char(node, ' ') {
            return Err(JiniError::Validation { text: String::from_str(node) });
        }
        Ok(())
    }
}

} // verus!
