//! Attribute parsing: one field's raw annotation tokens become a
//! structured attribute record.
//!
//! The grammar recognizes exactly four token forms: `get`, `set`,
//! `invalidates(<field-name>)` and `computed(<function-reference>)`.
//! `get` and `set` are idempotent flags; `invalidates` and `computed` are
//! single-valued, and a repetition of either fails with
//! [`GenError::DuplicateAttribute`].  Any other token fails with
//! [`GenError::UnknownAttribute`].

use vstd::prelude::*;

use crate::errors::GenError;

verus! {

/// One raw annotation token attached to a field: its name, its
/// parenthesized argument if it has one, and the location handle of the
/// token in the source.
#[derive(Debug)]
pub struct RawAttr {
    /// The token's name, e.g. `invalidates`.
    pub name: String,
    /// The parenthesized argument, e.g. the target field's name.
    pub arg: Option<String>,
    /// Location handle of the token, for diagnostics.
    pub loc: usize,
}

/// Specification-level image of a [`RawAttr`].
pub struct RawAttrSpec {
    /// The token's name.
    pub name: Seq<char>,
    /// The parenthesized argument, if any.
    pub arg: Option<Seq<char>>,
    /// Location handle of the token.
    pub loc: usize,
}

impl View for RawAttr {
    type V = RawAttrSpec;

    open spec fn view(&self) -> RawAttrSpec {
        RawAttrSpec {
            name: self.name@,
            arg: match self.arg {
                Option::Some(a) => Option::Some(a@),
                Option::None => Option::None,
            },
            loc: self.loc,
        }
    }
}

/// The two accessor flags a plain field may carry.
#[derive(Clone, Copy, Debug, PartialEq, Eq, Structural)]
pub enum Accessor {
    /// Emit a read accessor `get_<field>`.
    Getter,
    /// Emit a write accessor `set_<field>`.
    Setter,
}

/// A reference an attribute makes to another item (an invalidation
/// target or a computing function), with the referring token's location.
#[derive(Debug)]
pub struct AttrRef {
    /// The referenced name.
    pub name: String,
    /// Location handle of the referring token.
    pub loc: usize,
}

/// Specification-level image of an [`AttrRef`].
pub struct AttrRefSpec {
    /// The referenced name.
    pub name: Seq<char>,
    /// Location handle of the referring token.
    pub loc: usize,
}

impl View for AttrRef {
    type V = AttrRefSpec;

    open spec fn view(&self) -> AttrRefSpec {
        AttrRefSpec { name: self.name@, loc: self.loc }
    }
}

/// The parsed attribute record of one field: the deduplicated accessor
/// flags, the optional invalidation target, and the optional computing
/// function.
#[derive(Debug)]
pub struct ParsedAttr {
    /// Whether the field carries the `get` flag.
    pub get: bool,
    /// Whether the field carries the `set` flag.
    pub set: bool,
    /// The `invalidates(target)` reference, if any.
    pub invalidates: Option<AttrRef>,
    /// The `computed(function)` reference, if any.
    pub computed: Option<AttrRef>,
}

/// Specification-level image of a [`ParsedAttr`].
pub struct ParsedAttrSpec {
    /// Whether the field carries the `get` flag.
    pub get: bool,
    /// Whether the field carries the `set` flag.
    pub set: bool,
    /// The `invalidates(target)` reference, if any.
    pub invalidates: Option<AttrRefSpec>,
    /// The `computed(function)` reference, if any.
    pub computed: Option<AttrRefSpec>,
}

impl View for ParsedAttr {
    type V = ParsedAttrSpec;

    open spec fn view(&self) -> ParsedAttrSpec {
        ParsedAttrSpec {
            get: self.get,
            set: self.set,
            invalidates: match self.invalidates {
                Option::Some(ref r) => Option::Some(r@),
                Option::None => Option::None,
            },
            computed: match self.computed {
                Option::Some(ref r) => Option::Some(r@),
                Option::None => Option::None,
            },
        }
    }
}

impl ParsedAttrSpec {
    /// The accessor flags, as the set of accessors they stand for.
    pub open spec fn accessors(self) -> Set<Accessor> {
        Set::new(
            |a: Accessor|
                match a {
                    Accessor::Getter => self.get,
                    Accessor::Setter => self.set,
                },
        )
    }
}

/// The attribute record of a field with no annotation tokens.
pub open spec fn no_attrs() -> ParsedAttrSpec {
    ParsedAttrSpec { get: false, set: false, invalidates: Option::None, computed: Option::None }
}

/// One parsing step: fold the token `t` into the record `st`.
pub open spec fn parse_step(st: ParsedAttrSpec, t: RawAttrSpec) -> Result<ParsedAttrSpec, GenError> {
    if t.name == "get"@ && t.arg is None {
        Result::Ok(ParsedAttrSpec { get: true, ..st })
    } else if t.name == "set"@ && t.arg is None {
        Result::Ok(ParsedAttrSpec { set: true, ..st })
    } else if t.name == "invalidates"@ && t.arg is Some {
        if st.invalidates is Some {
            Result::Err(GenError::DuplicateAttribute { loc: t.loc })
        } else {
            Result::Ok(
                ParsedAttrSpec {
                    invalidates: Option::Some(AttrRefSpec { name: t.arg->Some_0, loc: t.loc }),
                    ..st
                },
            )
        }
    } else if t.name == "computed"@ && t.arg is Some {
        if st.computed is Some {
            Result::Err(GenError::DuplicateAttribute { loc: t.loc })
        } else {
            Result::Ok(
                ParsedAttrSpec {
                    computed: Option::Some(AttrRefSpec { name: t.arg->Some_0, loc: t.loc }),
                    ..st
                },
            )
        }
    } else {
        Result::Err(GenError::UnknownAttribute { loc: t.loc })
    }
}

/// Fold [`parse_step`] over a token sequence, stopping at the first
/// failure.
pub open spec fn parse_fold(st: ParsedAttrSpec, ts: Seq<RawAttrSpec>) -> Result<
    ParsedAttrSpec,
    GenError,
>
    decreases ts.len(),
{
    if ts.len() == 0 {
        Result::Ok(st)
    } else {
        match parse_step(st, ts[0]) {
            Result::Ok(st2) => parse_fold(st2, ts.drop_first()),
            Result::Err(e) => Result::Err(e),
        }
    }
}

/// What parsing a field's token list returns: the attribute record, or
/// the first failure.
pub open spec fn spec_parse_attrs(ts: Seq<RawAttrSpec>) -> Result<ParsedAttrSpec, GenError> {
    parse_fold(no_attrs(), ts)
}

/// The specification-level image of a token list.
pub open spec fn tokens_view(ts: Seq<RawAttr>) -> Seq<RawAttrSpec> {
    ts.map_values(|t: RawAttr| t@)
}

/// The accessor flags are idempotent: a repeated `get` or `set` token
/// never fails and never changes the record a second time.
pub proof fn lemma_flags_idempotent(st: ParsedAttrSpec, t: RawAttrSpec)
    requires
        t.name == "get"@ || t.name == "set"@,
        t.arg is None,
    ensures
        parse_step(st, t) is Ok,
        parse_step(parse_step(st, t)->Ok_0, t) == parse_step(st, t),
{
}

/// Whether a `String` equals a given literal.
pub(crate) fn name_is(name: &String, lit: &str) -> (r: bool)
    ensures
        r == (name@ == lit@),
{
    let l: String = lit.to_owned();
    *name == l
}

impl ParsedAttr {
    /// Fold one raw token into the record, as [`parse_step`] says.
    fn apply_token(self, t: &RawAttr) -> (r: Result<ParsedAttr, GenError>)
        ensures
            match r {
                Result::Ok(p) => parse_step(self@, t@) == Result::<ParsedAttrSpec, GenError>::Ok(
                    p@,
                ),
                Result::Err(e) => parse_step(self@, t@) == Result::<ParsedAttrSpec, GenError>::Err(
                    e,
                ),
            },
    {
        let mut st = self;
        if name_is(&t.name, "get") && t.arg.is_none() {
            st.get = true;
            Result::Ok(st)
        } else if name_is(&t.name, "set") && t.arg.is_none() {
            st.set = true;
            Result::Ok(st)
        } else if name_is(&t.name, "invalidates") && t.arg.is_some() {
            if st.invalidates.is_some() {
                Result::Err(GenError::DuplicateAttribute { loc: t.loc })
            } else {
                let arg = match &t.arg {
                    Option::Some(a) => a.clone(),
                    Option::None => vstd::pervasive::unreached(),
                };
                st.invalidates = Option::Some(AttrRef { name: arg, loc: t.loc });
                Result::Ok(st)
            }
        } else if name_is(&t.name, "computed") && t.arg.is_some() {
            if st.computed.is_some() {
                Result::Err(GenError::DuplicateAttribute { loc: t.loc })
            } else {
                let arg = match &t.arg {
                    Option::Some(a) => a.clone(),
                    Option::None => vstd::pervasive::unreached(),
                };
                st.computed = Option::Some(AttrRef { name: arg, loc: t.loc });
                Result::Ok(st)
            }
        } else {
            Result::Err(GenError::UnknownAttribute { loc: t.loc })
        }
    }

    /// Parse one field's raw annotation tokens into an attribute record,
    /// or fail at the first token that breaks the grammar.
    pub fn from_attributes(attrs: &Vec<RawAttr>) -> (r: Result<ParsedAttr, GenError>)
        ensures
            match r {
                Result::Ok(p) => spec_parse_attrs(tokens_view(attrs@)) == Result::<
                    ParsedAttrSpec,
                    GenError,
                >::Ok(p@),
                Result::Err(e) => spec_parse_attrs(tokens_view(attrs@)) == Result::<
                    ParsedAttrSpec,
                    GenError,
                >::Err(e),
            },
    {
        let ghost tv = tokens_view(attrs@);
        let mut st = ParsedAttr { get: false, set: false, invalidates: None, computed: None };
        proof {
            assert(st@ == no_attrs());
            assert(tv.skip(0) =~= tv);
        }
        let mut i: usize = 0;
        while i < attrs.len()
            invariant
                0 <= i <= attrs.len(),
                tv == tokens_view(attrs@),
                tv.len() == attrs@.len(),
                forall|j: int| 0 <= j < attrs@.len() ==> tv[j] == attrs@[j]@,
                spec_parse_attrs(tv) == parse_fold(st@, tv.skip(i as int)),
            decreases attrs.len() - i,
        {
            let t = &attrs[i];
            proof {
                assert(tv.skip(i as int)[0] == tv[i as int]);
                assert(tv.skip(i as int).drop_first() =~= tv.skip(i as int + 1));
            }
            match st.apply_token(t) {
                Result::Ok(st2) => {
                    st = st2;
                },
                Result::Err(e) => {
                    return Result::Err(e);
                },
            }
            i += 1;
        }
        proof {
            assert(tv.skip(i as int) =~= Seq::<RawAttrSpec>::empty());
        }
        Result::Ok(st)
    }
}

} // verus!
