//! The soundness check: partition a structure's fields into plain and
//! computed groups and validate the cross-field rules.
//!
//! A computed field may carry neither `invalidates` nor an accessor flag
//! ([`GenError::AttributeConflict`]), and every `invalidates(target)` of
//! a plain field must name an existing field of the same structure
//! ([`GenError::UndefinedInvalidationTarget`]) — checked here, at
//! generation time, never deferred to first use.  Checks run in a fixed
//! order and field declaration order is preserved, so diagnostics and
//! output are stable for identical input.

use vstd::prelude::*;

use crate::attrs::name_is;
use crate::errors::GenError;
use crate::fields::{
    ParsedCode, ParsedCodeSpec, ParsedField, ParsedFieldSpec, clone_strings, parsed_fields_view,
};

verus! {

/// A validated plain field: its accessor flags and its resolved
/// invalidation target, if any.
#[derive(Debug)]
pub struct PlainField {
    /// The field's name.
    pub name: String,
    /// The field's declared type, as source text.
    pub ty: String,
    /// Whether a read accessor is emitted.
    pub get: bool,
    /// Whether a write accessor is emitted.
    pub set: bool,
    /// The name of the field whose cell the write accessor invalidates.
    pub invalidates: Option<String>,
}

/// Specification-level image of a [`PlainField`].
pub struct PlainFieldSpec {
    /// The field's name.
    pub name: Seq<char>,
    /// The field's declared type, as source text.
    pub ty: Seq<char>,
    /// Whether a read accessor is emitted.
    pub get: bool,
    /// Whether a write accessor is emitted.
    pub set: bool,
    /// The name of the field whose cell the write accessor invalidates.
    pub invalidates: Option<Seq<char>>,
}

impl View for PlainField {
    type V = PlainFieldSpec;

    open spec fn view(&self) -> PlainFieldSpec {
        PlainFieldSpec {
            name: self.name@,
            ty: self.ty@,
            get: self.get,
            set: self.set,
            invalidates: match self.invalidates {
                Option::Some(ref s) => Option::Some(s@),
                Option::None => Option::None,
            },
        }
    }
}

/// A validated computed field: its computing function and the ordered
/// dependency list the emitted accessor hands to it.
#[derive(Debug)]
pub struct ComputedField {
    /// The field's name.
    pub name: String,
    /// The field's declared type, as source text.
    pub ty: String,
    /// The computing function's reference, as source text.
    pub func: String,
    /// The field names handed to the computing function, in order.
    pub deps: Vec<String>,
}

/// Specification-level image of a [`ComputedField`].
pub struct ComputedFieldSpec {
    /// The field's name.
    pub name: Seq<char>,
    /// The field's declared type, as source text.
    pub ty: Seq<char>,
    /// The computing function's reference, as source text.
    pub func: Seq<char>,
    /// The field names handed to the computing function, in order.
    pub deps: Seq<Seq<char>>,
}

impl View for ComputedField {
    type V = ComputedFieldSpec;

    open spec fn view(&self) -> ComputedFieldSpec {
        ComputedFieldSpec {
            name: self.name@,
            ty: self.ty@,
            func: self.func@,
            deps: self.deps@.map_values(|s: String| s@),
        }
    }
}

/// The validated field model: the two ordered groups, ready for
/// emission.
#[derive(Debug)]
pub struct LinkedCode {
    /// The structure's name.
    pub struct_ident: String,
    /// The plain fields, in declaration order.
    pub plain: Vec<PlainField>,
    /// The computed fields, in declaration order.
    pub computed: Vec<ComputedField>,
}

/// Specification-level image of a [`LinkedCode`].
pub struct LinkedCodeSpec {
    /// The structure's name.
    pub struct_ident: Seq<char>,
    /// The plain fields, in declaration order.
    pub plain: Seq<PlainFieldSpec>,
    /// The computed fields, in declaration order.
    pub computed: Seq<ComputedFieldSpec>,
}

impl View for LinkedCode {
    type V = LinkedCodeSpec;

    open spec fn view(&self) -> LinkedCodeSpec {
        LinkedCodeSpec {
            struct_ident: self.struct_ident@,
            plain: self.plain@.map_values(|f: PlainField| f@),
            computed: self.computed@.map_values(|f: ComputedField| f@),
        }
    }
}

/// The plain-field record a parsed field turns into.
pub open spec fn to_plain(f: ParsedFieldSpec) -> PlainFieldSpec {
    PlainFieldSpec {
        name: f.name,
        ty: f.ty,
        get: f.attrs.get,
        set: f.attrs.set,
        invalidates: match f.attrs.invalidates {
            Option::Some(r) => Option::Some(r.name),
            Option::None => Option::None,
        },
    }
}

/// The computed-field record a parsed field turns into.
pub open spec fn to_computed(f: ParsedFieldSpec) -> ComputedFieldSpec {
    ComputedFieldSpec {
        name: f.name,
        ty: f.ty,
        func: f.attrs.computed->Some_0.name,
        deps: f.computed_deps,
    }
}

/// The attribute conflict one field carries, if any: a computed field
/// may carry neither `invalidates` (reported at the `invalidates` token)
/// nor an accessor flag (reported at the field's name).
pub open spec fn conflict_of(f: ParsedFieldSpec) -> Option<GenError> {
    if f.attrs.computed is Some {
        if f.attrs.invalidates is Some {
            Option::Some(GenError::AttributeConflict { loc: f.attrs.invalidates->Some_0.loc })
        } else if f.attrs.get || f.attrs.set {
            Option::Some(GenError::AttributeConflict { loc: f.loc })
        } else {
            Option::None
        }
    } else {
        Option::None
    }
}

/// The first attribute conflict in declaration order, if any.
pub open spec fn first_conflict(fs: Seq<ParsedFieldSpec>) -> Option<GenError>
    decreases fs.len(),
{
    if fs.len() == 0 {
        Option::None
    } else {
        match conflict_of(fs[0]) {
            Option::Some(e) => Option::Some(e),
            Option::None => first_conflict(fs.drop_first()),
        }
    }
}

/// Whether some field of the structure bears the given name.
pub open spec fn has_field(fs: Seq<ParsedFieldSpec>, name: Seq<char>) -> bool {
    exists|j: int| 0 <= j < fs.len() && fs[j].name == name
}

/// The undefined-target failure one field carries, if any: a plain field
/// whose `invalidates(target)` names no field of the structure, reported
/// at the `invalidates` token.
pub open spec fn target_error_of(all: Seq<ParsedFieldSpec>, f: ParsedFieldSpec) -> Option<
    GenError,
> {
    if f.attrs.computed is None && f.attrs.invalidates is Some && !has_field(
        all,
        f.attrs.invalidates->Some_0.name,
    ) {
        Option::Some(
            GenError::UndefinedInvalidationTarget { loc: f.attrs.invalidates->Some_0.loc },
        )
    } else {
        Option::None
    }
}

/// The first undefined invalidation target in declaration order, if any.
pub open spec fn first_undefined_target(
    all: Seq<ParsedFieldSpec>,
    fs: Seq<ParsedFieldSpec>,
) -> Option<GenError>
    decreases fs.len(),
{
    if fs.len() == 0 {
        Option::None
    } else {
        match target_error_of(all, fs[0]) {
            Option::Some(e) => Option::Some(e),
            Option::None => first_undefined_target(all, fs.drop_first()),
        }
    }
}

/// The plain group: every field without `computed`, in declaration
/// order.
pub open spec fn plain_part(fs: Seq<ParsedFieldSpec>) -> Seq<PlainFieldSpec>
    decreases fs.len(),
{
    if fs.len() == 0 {
        Seq::empty()
    } else {
        let rest = plain_part(fs.drop_last());
        if fs.last().attrs.computed is None {
            rest.push(to_plain(fs.last()))
        } else {
            rest
        }
    }
}

/// The computed group: every field with `computed`, in declaration
/// order.
pub open spec fn computed_part(fs: Seq<ParsedFieldSpec>) -> Seq<ComputedFieldSpec>
    decreases fs.len(),
{
    if fs.len() == 0 {
        Seq::empty()
    } else {
        let rest = computed_part(fs.drop_last());
        if fs.last().attrs.computed is Some {
            rest.push(to_computed(fs.last()))
        } else {
            rest
        }
    }
}

/// What the soundness check returns: the first conflict if there is one,
/// else the first undefined invalidation target if there is one, else
/// the two validated groups in declaration order.
pub open spec fn spec_check(c: ParsedCodeSpec) -> Result<LinkedCodeSpec, GenError> {
    match first_conflict(c.fields) {
        Option::Some(e) => Result::Err(e),
        Option::None => match first_undefined_target(c.fields, c.fields) {
            Option::Some(e) => Result::Err(e),
            Option::None => Result::Ok(
                LinkedCodeSpec {
                    struct_ident: c.struct_ident,
                    plain: plain_part(c.fields),
                    computed: computed_part(c.fields),
                },
            ),
        },
    }
}

/// [`first_conflict`] finds an error as soon as any field carries a
/// conflict.
proof fn lemma_first_conflict_some(fs: Seq<ParsedFieldSpec>, i: int)
    requires
        0 <= i < fs.len(),
        conflict_of(fs[i]) is Some,
    ensures
        first_conflict(fs) is Some,
    decreases fs.len(),
{
    if conflict_of(fs[0]) is Some {
    } else {
        assert(fs.drop_first()[i - 1] == fs[i]);
        lemma_first_conflict_some(fs.drop_first(), i - 1);
    }
}

/// Every error [`first_conflict`] reports is an attribute conflict.
proof fn lemma_first_conflict_kind(fs: Seq<ParsedFieldSpec>)
    requires
        first_conflict(fs) is Some,
    ensures
        first_conflict(fs)->Some_0 is AttributeConflict,
    decreases fs.len(),
{
    if fs.len() == 0 {
    } else if conflict_of(fs[0]) is Some {
    } else {
        lemma_first_conflict_kind(fs.drop_first());
    }
}

/// [`first_undefined_target`] finds an error as soon as any plain field
/// names a missing target.
proof fn lemma_first_target_some(all: Seq<ParsedFieldSpec>, fs: Seq<ParsedFieldSpec>, i: int)
    requires
        0 <= i < fs.len(),
        target_error_of(all, fs[i]) is Some,
    ensures
        first_undefined_target(all, fs) is Some,
    decreases fs.len(),
{
    if target_error_of(all, fs[0]) is Some {
    } else {
        assert(fs.drop_first()[i - 1] == fs[i]);
        lemma_first_target_some(all, fs.drop_first(), i - 1);
    }
}

/// Every error [`first_undefined_target`] reports is an undefined
/// invalidation target.
proof fn lemma_first_target_kind(all: Seq<ParsedFieldSpec>, fs: Seq<ParsedFieldSpec>)
    requires
        first_undefined_target(all, fs) is Some,
    ensures
        first_undefined_target(all, fs)->Some_0 is UndefinedInvalidationTarget,
    decreases fs.len(),
{
    if fs.len() == 0 {
    } else if target_error_of(all, fs[0]) is Some {
    } else {
        lemma_first_target_kind(all, fs.drop_first());
    }
}

/// A field that combines `computed` with an accessor flag or with
/// `invalidates` makes the soundness check of its structure fail, and
/// fail with an attribute conflict: no accessors, partial or otherwise,
/// are ever emitted for such a structure.
pub proof fn lemma_conflict_rejected(c: ParsedCodeSpec, i: int)
    requires
        0 <= i < c.fields.len(),
        c.fields[i].attrs.computed is Some,
        c.fields[i].attrs.invalidates is Some || c.fields[i].attrs.get || c.fields[i].attrs.set,
    ensures
        spec_check(c) is Err,
        spec_check(c)->Err_0 is AttributeConflict,
{
    assert(conflict_of(c.fields[i]) is Some);
    lemma_first_conflict_some(c.fields, i);
    lemma_first_conflict_kind(c.fields);
}

/// An `invalidates(name)` that references no field of its structure
/// makes the soundness check fail at generation time — never deferred
/// to first use; when no attribute conflict precedes it, the reported
/// failure is the undefined invalidation target itself.
pub proof fn lemma_undefined_target_rejected(c: ParsedCodeSpec, i: int)
    requires
        0 <= i < c.fields.len(),
        c.fields[i].attrs.computed is None,
        c.fields[i].attrs.invalidates is Some,
        !has_field(c.fields, c.fields[i].attrs.invalidates->Some_0.name),
    ensures
        spec_check(c) is Err,
        first_conflict(c.fields) is None ==> spec_check(c)->Err_0 is UndefinedInvalidationTarget,
{
    if first_conflict(c.fields) is None {
        assert(target_error_of(c.fields, c.fields[i]) is Some);
        lemma_first_target_some(c.fields, c.fields, i);
        lemma_first_target_kind(c.fields, c.fields);
    }
}

/// Whether some field of the structure bears the given name.
fn field_exists(fields: &Vec<ParsedField>, name: &String) -> (r: bool)
    ensures
        r == has_field(parsed_fields_view(fields@), name@),
{
    let ghost fv = parsed_fields_view(fields@);
    let mut j: usize = 0;
    while j < fields.len()
        invariant
            0 <= j <= fields.len(),
            fv == parsed_fields_view(fields@),
            fv.len() == fields@.len(),
            forall|k: int| 0 <= k < fields@.len() ==> fv[k] == fields@[k]@,
            forall|k: int| 0 <= k < j ==> fv[k].name != name@,
        decreases fields.len() - j,
    {
        if name_is(&fields[j].name, name.as_str()) {
            proof {
                assert(0 <= j < fv.len() && fv[j as int].name == name@);
            }
            return true;
        }
        j += 1;
    }
    false
}

impl ParsedCode {
    /// Validate the field model and partition it, as [`spec_check`]
    /// says: report the first attribute conflict, else the first
    /// undefined invalidation target, else hand back the plain and
    /// computed groups in declaration order.
    pub fn check_soundness(&self) -> (r: Result<LinkedCode, GenError>)
        ensures
            match r {
                Result::Ok(lc) => spec_check(self@) == Result::<LinkedCodeSpec, GenError>::Ok(lc@),
                Result::Err(e) => spec_check(self@) == Result::<LinkedCodeSpec, GenError>::Err(e),
            },
    {
        let ghost fv = parsed_fields_view(self.fields@);
        proof {
            assert(fv == self@.fields);
        }

        // first pass: attribute conflicts on computed fields
        let mut i: usize = 0;
        proof {
            assert(fv.skip(0) =~= fv);
        }
        while i < self.fields.len()
            invariant
                0 <= i <= self.fields.len(),
                fv == parsed_fields_view(self.fields@),
                fv.len() == self.fields@.len(),
                forall|k: int| 0 <= k < self.fields@.len() ==> fv[k] == self.fields@[k]@,
                first_conflict(fv) == first_conflict(fv.skip(i as int)),
            decreases self.fields.len() - i,
        {
            let f = &self.fields[i];
            proof {
                assert(fv.skip(i as int)[0] == fv[i as int]);
                assert(fv.skip(i as int).drop_first() =~= fv.skip(i as int + 1));
            }
            if f.attrs.computed.is_some() {
                match &f.attrs.invalidates {
                    Option::Some(inv) => {
                        return Result::Err(GenError::AttributeConflict { loc: inv.loc });
                    },
                    Option::None => {},
                }
                if f.attrs.get || f.attrs.set {
                    return Result::Err(GenError::AttributeConflict { loc: f.loc });
                }
            }
            proof {
                assert(conflict_of(fv[i as int]) is None);
            }
            i += 1;
        }
        proof {
            assert(fv.skip(i as int) =~= Seq::<ParsedFieldSpec>::empty());
            assert(first_conflict(fv) is None);
        }

        // second pass: referential integrity of invalidation targets
        let mut i: usize = 0;
        proof {
            assert(fv.skip(0) =~= fv);
        }
        while i < self.fields.len()
            invariant
                0 <= i <= self.fields.len(),
                fv == parsed_fields_view(self.fields@),
                fv.len() == self.fields@.len(),
                forall|k: int| 0 <= k < self.fields@.len() ==> fv[k] == self.fields@[k]@,
                first_conflict(fv) is None,
                first_undefined_target(fv, fv) == first_undefined_target(fv, fv.skip(i as int)),
            decreases self.fields.len() - i,
        {
            let f = &self.fields[i];
            proof {
                assert(fv.skip(i as int)[0] == fv[i as int]);
                assert(fv.skip(i as int).drop_first() =~= fv.skip(i as int + 1));
            }
            if f.attrs.computed.is_none() {
                match &f.attrs.invalidates {
                    Option::Some(inv) => {
                        if !field_exists(&self.fields, &inv.name) {
                            return Result::Err(
                                GenError::UndefinedInvalidationTarget { loc: inv.loc },
                            );
                        }
                    },
                    Option::None => {},
                }
            }
            proof {
                assert(target_error_of(fv, fv[i as int]) is None);
            }
            i += 1;
        }
        proof {
            assert(fv.skip(i as int) =~= Seq::<ParsedFieldSpec>::empty());
            assert(first_undefined_target(fv, fv) is None);
        }

        // partition, keeping declaration order in each group
        let mut plain: Vec<PlainField> = Vec::new();
        let mut computed: Vec<ComputedField> = Vec::new();
        let mut i: usize = 0;
        proof {
            assert(fv.take(0) =~= Seq::<ParsedFieldSpec>::empty());
            assert(plain@.map_values(|f: PlainField| f@) =~= Seq::<PlainFieldSpec>::empty());
            assert(computed@.map_values(|f: ComputedField| f@) =~= Seq::<
                ComputedFieldSpec,
            >::empty());
        }
        while i < self.fields.len()
            invariant
                0 <= i <= self.fields.len(),
                fv == parsed_fields_view(self.fields@),
                fv.len() == self.fields@.len(),
                forall|k: int| 0 <= k < self.fields@.len() ==> fv[k] == self.fields@[k]@,
                plain@.map_values(|f: PlainField| f@) == plain_part(fv.take(i as int)),
                computed@.map_values(|f: ComputedField| f@) == computed_part(fv.take(i as int)),
            decreases self.fields.len() - i,
        {
            let f = &self.fields[i];
            proof {
                assert(fv.take(i as int + 1).drop_last() =~= fv.take(i as int));
                assert(fv.take(i as int + 1).last() == fv[i as int]);
            }
            match &f.attrs.computed {
                Option::Some(func) => {
                    let cf = ComputedField {
                        name: f.name.clone(),
                        ty: f.ty.clone(),
                        func: func.name.clone(),
                        deps: clone_strings(&f.computed_deps),
                    };
                    proof {
                        assert(cf@ == to_computed(fv[i as int]));
                        assert(computed@.push(cf).map_values(|g: ComputedField| g@)
                            =~= computed@.map_values(|g: ComputedField| g@).push(cf@));
                    }
                    computed.push(cf);
                },
                Option::None => {
                    let pf = PlainField {
                        name: f.name.clone(),
                        ty: f.ty.clone(),
                        get: f.attrs.get,
                        set: f.attrs.set,
                        invalidates: match &f.attrs.invalidates {
                            Option::Some(inv) => Option::Some(inv.name.clone()),
                            Option::None => Option::None,
                        },
                    };
                    proof {
                        assert(pf@ == to_plain(fv[i as int]));
                        assert(plain@.push(pf).map_values(|g: PlainField| g@)
                            =~= plain@.map_values(|g: PlainField| g@).push(pf@));
                    }
                    plain.push(pf);
                },
            }
            i += 1;
        }
        proof {
            assert(fv.take(i as int) =~= fv);
        }
        let lc = LinkedCode { struct_ident: self.struct_ident.clone(), plain, computed };
        Result::Ok(lc)
    }
}

} // verus!
