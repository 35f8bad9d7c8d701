//! The field model: the declared shape of an annotated structure, and
//! the builder that pairs each field with its parsed attribute record.
//!
//! The builder accepts only a structure with named fields; enumerations,
//! unions and positional or unit shapes fail with
//! [`GenError::UnsupportedShape`].  Attribute parsing failures of a field
//! abort the whole structure, first field first.

use vstd::prelude::*;

use crate::attrs::{ParsedAttr, ParsedAttrSpec, RawAttr, RawAttrSpec, spec_parse_attrs, tokens_view};
use crate::errors::GenError;

verus! {

/// The declared visibility of a field.
#[derive(Clone, Copy, Debug, PartialEq, Eq, Structural)]
pub enum FieldVis {
    /// The field is not visible outside its structure.
    Private,
    /// The field is visible outside its structure.
    Public,
}

/// One field as the host structure declares it: name, type reference,
/// visibility, raw annotation tokens, and the declared dependency list of
/// its computing function (empty for a plain field).  Dependencies are
/// supplied positionally with the declaration, never inferred.
#[derive(Debug)]
pub struct FieldDecl {
    /// The field's name.
    pub name: String,
    /// The field's declared type, as source text.
    pub ty: String,
    /// The field's declared visibility.
    pub vis: FieldVis,
    /// Location handle of the field's name, for diagnostics.
    pub loc: usize,
    /// The raw annotation tokens attached to the field.
    pub attrs: Vec<RawAttr>,
    /// For a computed field, the field names the computing function takes,
    /// in the order of its declared parameters.
    pub computed_deps: Vec<String>,
}

/// Specification-level image of a [`FieldDecl`].
pub struct FieldDeclSpec {
    /// The field's name.
    pub name: Seq<char>,
    /// The field's declared type, as source text.
    pub ty: Seq<char>,
    /// The field's declared visibility.
    pub vis: FieldVis,
    /// Location handle of the field's name.
    pub loc: usize,
    /// The raw annotation tokens attached to the field.
    pub attrs: Seq<RawAttrSpec>,
    /// The declared dependency list of the computing function.
    pub computed_deps: Seq<Seq<char>>,
}

impl View for FieldDecl {
    type V = FieldDeclSpec;

    open spec fn view(&self) -> FieldDeclSpec {
        FieldDeclSpec {
            name: self.name@,
            ty: self.ty@,
            vis: self.vis,
            loc: self.loc,
            attrs: tokens_view(self.attrs@),
            computed_deps: self.computed_deps@.map_values(|s: String| s@),
        }
    }
}

/// The shape of the annotated item, as far as the generator cares: a
/// structure with named fields is workable, every other shape is refused.
pub enum InputShape {
    /// A structure with named fields.
    Named(Vec<FieldDecl>),
    /// A structure with positional (tuple) fields.
    Positional,
    /// A structure with no fields.
    Unit,
    /// An enumeration.
    Enumeration,
    /// An untagged union.
    Union,
}

/// Specification-level image of an [`InputShape`].
pub enum InputShapeSpec {
    /// A structure with named fields.
    Named(Seq<FieldDeclSpec>),
    /// A structure with positional (tuple) fields.
    Positional,
    /// A structure with no fields.
    Unit,
    /// An enumeration.
    Enumeration,
    /// An untagged union.
    Union,
}

/// The specification-level image of a field declaration list.
pub open spec fn decls_view(ds: Seq<FieldDecl>) -> Seq<FieldDeclSpec> {
    ds.map_values(|d: FieldDecl| d@)
}

impl View for InputShape {
    type V = InputShapeSpec;

    open spec fn view(&self) -> InputShapeSpec {
        match self {
            InputShape::Named(ds) => InputShapeSpec::Named(decls_view(ds@)),
            InputShape::Positional => InputShapeSpec::Positional,
            InputShape::Unit => InputShapeSpec::Unit,
            InputShape::Enumeration => InputShapeSpec::Enumeration,
            InputShape::Union => InputShapeSpec::Union,
        }
    }
}

/// The annotated item handed to the generator: its name, the location
/// handle of its declaring keyword (for shape diagnostics), and its shape.
pub struct StructureInput {
    /// The item's name.
    pub name: String,
    /// Location handle of the structure or variant keyword.
    pub loc: usize,
    /// The item's shape.
    pub shape: InputShape,
}

/// Specification-level image of a [`StructureInput`].
pub struct StructureInputSpec {
    /// The item's name.
    pub name: Seq<char>,
    /// Location handle of the structure or variant keyword.
    pub loc: usize,
    /// The item's shape.
    pub shape: InputShapeSpec,
}

impl View for StructureInput {
    type V = StructureInputSpec;

    open spec fn view(&self) -> StructureInputSpec {
        StructureInputSpec { name: self.name@, loc: self.loc, shape: self.shape@ }
    }
}

/// One field paired with its parsed attribute record.
#[derive(Debug)]
pub struct ParsedField {
    /// The field's name.
    pub name: String,
    /// The field's declared type, as source text.
    pub ty: String,
    /// The field's declared visibility.
    pub vis: FieldVis,
    /// Location handle of the field's name, for diagnostics.
    pub loc: usize,
    /// The field's parsed attribute record.
    pub attrs: ParsedAttr,
    /// The declared dependency list of the computing function.
    pub computed_deps: Vec<String>,
}

/// Specification-level image of a [`ParsedField`].
pub struct ParsedFieldSpec {
    /// The field's name.
    pub name: Seq<char>,
    /// The field's declared type, as source text.
    pub ty: Seq<char>,
    /// The field's declared visibility.
    pub vis: FieldVis,
    /// Location handle of the field's name.
    pub loc: usize,
    /// The field's parsed attribute record.
    pub attrs: ParsedAttrSpec,
    /// The declared dependency list of the computing function.
    pub computed_deps: Seq<Seq<char>>,
}

impl View for ParsedField {
    type V = ParsedFieldSpec;

    open spec fn view(&self) -> ParsedFieldSpec {
        ParsedFieldSpec {
            name: self.name@,
            ty: self.ty@,
            vis: self.vis,
            loc: self.loc,
            attrs: self.attrs@,
            computed_deps: self.computed_deps@.map_values(|s: String| s@),
        }
    }
}

/// The full field model of one structure, ready for the soundness check.
#[derive(Debug)]
pub struct ParsedCode {
    /// The structure's name.
    pub struct_ident: String,
    /// The structure's fields, in declaration order.
    pub fields: Vec<ParsedField>,
}

/// Specification-level image of a [`ParsedCode`].
pub struct ParsedCodeSpec {
    /// The structure's name.
    pub struct_ident: Seq<char>,
    /// The structure's fields, in declaration order.
    pub fields: Seq<ParsedFieldSpec>,
}

impl View for ParsedCode {
    type V = ParsedCodeSpec;

    open spec fn view(&self) -> ParsedCodeSpec {
        ParsedCodeSpec {
            struct_ident: self.struct_ident@,
            fields: self.fields@.map_values(|f: ParsedField| f@),
        }
    }
}

/// The specification-level image of a parsed field list.
pub open spec fn parsed_fields_view(fs: Seq<ParsedField>) -> Seq<ParsedFieldSpec> {
    fs.map_values(|f: ParsedField| f@)
}

/// What building one field returns: the field paired with its parsed
/// attributes, or the first attribute failure.
pub open spec fn spec_parse_field(d: FieldDeclSpec) -> Result<ParsedFieldSpec, GenError> {
    match spec_parse_attrs(d.attrs) {
        Result::Ok(a) => Result::Ok(
            ParsedFieldSpec {
                name: d.name,
                ty: d.ty,
                vis: d.vis,
                loc: d.loc,
                attrs: a,
                computed_deps: d.computed_deps,
            },
        ),
        Result::Err(e) => Result::Err(e),
    }
}

/// Prepend the fields already built to the outcome for the rest.
pub open spec fn build_continue(
    done: Seq<ParsedFieldSpec>,
    rest: Result<Seq<ParsedFieldSpec>, GenError>,
) -> Result<Seq<ParsedFieldSpec>, GenError> {
    match rest {
        Result::Ok(fs) => Result::Ok(done + fs),
        Result::Err(e) => Result::Err(e),
    }
}

/// What building a field list returns: every field paired with its
/// parsed attributes, in declaration order, or the first failure.
pub open spec fn spec_build_fields(ds: Seq<FieldDeclSpec>) -> Result<Seq<ParsedFieldSpec>, GenError>
    decreases ds.len(),
{
    if ds.len() == 0 {
        Result::Ok(Seq::empty())
    } else {
        match spec_parse_field(ds[0]) {
            Result::Ok(f) => build_continue(seq![f], spec_build_fields(ds.drop_first())),
            Result::Err(e) => Result::Err(e),
        }
    }
}

/// What the field model builder returns for an annotated item: the field
/// model of a structure with named fields, and a failure for every other
/// shape or on the first bad attribute.
pub open spec fn spec_new(input: StructureInputSpec) -> Result<ParsedCodeSpec, GenError> {
    match input.shape {
        InputShapeSpec::Named(ds) => match spec_build_fields(ds) {
            Result::Ok(fs) => Result::Ok(
                ParsedCodeSpec { struct_ident: input.name, fields: fs },
            ),
            Result::Err(e) => Result::Err(e),
        },
        _ => Result::Err(GenError::UnsupportedShape { loc: input.loc }),
    }
}

/// Clone a list of strings, value for value.
pub(crate) fn clone_strings(v: &Vec<String>) -> (r: Vec<String>)
    ensures
        r@ == v@,
{
    let mut r: Vec<String> = Vec::new();
    let mut i: usize = 0;
    while i < v.len()
        invariant
            0 <= i <= v.len(),
            r@ == v@.take(i as int),
        decreases v.len() - i,
    {
        let s = v[i].clone();
        r.push(s);
        proof {
            assert(v@.take(i as int).push(v@[i as int]) =~= v@.take(i as int + 1));
        }
        i += 1;
    }
    proof {
        assert(v@.take(v@.len() as int) =~= v@);
    }
    r
}

impl ParsedCode {
    /// Build the field model of an annotated item: refuse any shape that
    /// is not a structure with named fields, then pair each field with
    /// its parsed attribute record, in declaration order.
    pub fn new(input: &StructureInput) -> (r: Result<ParsedCode, GenError>)
        ensures
            match r {
                Result::Ok(c) => spec_new(input@) == Result::<ParsedCodeSpec, GenError>::Ok(c@),
                Result::Err(e) => spec_new(input@) == Result::<ParsedCodeSpec, GenError>::Err(e),
            },
    {
        match &input.shape {
            InputShape::Named(decls) => {
                let ghost dv = decls_view(decls@);
                let mut fields: Vec<ParsedField> = Vec::new();
                let mut i: usize = 0;
                proof {
                    assert(input@.shape == InputShapeSpec::Named(dv));
                    assert(dv.skip(0) =~= dv);
                    assert(parsed_fields_view(fields@) =~= Seq::<ParsedFieldSpec>::empty());
                }
                while i < decls.len()
                    invariant
                        0 <= i <= decls.len(),
                        input@.shape == InputShapeSpec::Named(dv),
                        dv == decls_view(decls@),
                        dv.len() == decls@.len(),
                        forall|j: int| 0 <= j < decls@.len() ==> dv[j] == decls@[j]@,
                        spec_build_fields(dv) == build_continue(
                            parsed_fields_view(fields@),
                            spec_build_fields(dv.skip(i as int)),
                        ),
                    decreases decls.len() - i,
                {
                    let d = &decls[i];
                    proof {
                        assert(dv.skip(i as int)[0] == dv[i as int]);
                        assert(dv.skip(i as int).drop_first() =~= dv.skip(i as int + 1));
                    }
                    let attrs = match ParsedAttr::from_attributes(&d.attrs) {
                        Result::Ok(a) => a,
                        Result::Err(e) => {
                            proof {
                                assert(dv[i as int] == decls@[i as int]@);
                                assert(spec_parse_field(dv[i as int]) == Result::<
                                    ParsedFieldSpec,
                                    GenError,
                                >::Err(e));
                                assert(spec_build_fields(dv.skip(i as int)) == Result::<
                                    Seq<ParsedFieldSpec>,
                                    GenError,
                                >::Err(e));
                                assert(spec_build_fields(dv) == Result::<
                                    Seq<ParsedFieldSpec>,
                                    GenError,
                                >::Err(e));
                                assert(spec_new(input@) == Result::<ParsedCodeSpec, GenError>::Err(
                                    e,
                                ));
                            }
                            return Result::Err(e);
                        },
                    };
                    let pf = ParsedField {
                        name: d.name.clone(),
                        ty: d.ty.clone(),
                        vis: d.vis,
                        loc: d.loc,
                        attrs,
                        computed_deps: clone_strings(&d.computed_deps),
                    };
                    proof {
                        let r_rest = spec_build_fields(dv.skip(i as int + 1));
                        let done = parsed_fields_view(fields@);
                        assert(spec_parse_field(dv[i as int]) == Result::<
                            ParsedFieldSpec,
                            GenError,
                        >::Ok(pf@));
                        assert(spec_build_fields(dv.skip(i as int)) == build_continue(
                            seq![pf@],
                            r_rest,
                        ));
                        assert(parsed_fields_view(fields@.push(pf)) =~= done + seq![pf@]);
                        if r_rest is Ok {
                            assert((done + seq![pf@]) + r_rest->Ok_0 =~= done + (seq![pf@]
                                + r_rest->Ok_0));
                        }
                        assert(build_continue(done, spec_build_fields(dv.skip(i as int)))
                            == build_continue(done + seq![pf@], r_rest));
                    }
                    fields.push(pf);
                    i += 1;
                }
                proof {
                    assert(dv.skip(i as int) =~= Seq::<FieldDeclSpec>::empty());
                    assert(parsed_fields_view(fields@) + Seq::<ParsedFieldSpec>::empty()
                        =~= parsed_fields_view(fields@));
                }
                Result::Ok(ParsedCode { struct_ident: input.name.clone(), fields })
            },
            InputShape::Positional => Result::Err(GenError::UnsupportedShape { loc: input.loc }),
            InputShape::Unit => Result::Err(GenError::UnsupportedShape { loc: input.loc }),
            InputShape::Enumeration => Result::Err(GenError::UnsupportedShape { loc: input.loc }),
            InputShape::Union => Result::Err(GenError::UnsupportedShape { loc: input.loc }),
        }
    }
}

} // verus!
