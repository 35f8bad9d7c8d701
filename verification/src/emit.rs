//! Code emission: the validated field model becomes accessor source
//! text, one `impl` block per field.
//!
//! For a plain field, `get_<field>` returns an immutable reference to
//! the field and `set_<field>` overwrites it — invalidating the
//! configured target cell first, unconditionally, so no reader can see a
//! stale cached value next to a fresh source value.  For a computed
//! field, `compute_<field>` hands the cell a closure that calls the
//! computing function with references to the declared dependency fields,
//! in order.  Emission is a pure transform: the text is a function of
//! the model alone, and the exact text is pinned below.

use vstd::prelude::*;
use vstd::string::StringExecFns;

use crate::attrs::Accessor;
use crate::errors::GenError;
use crate::fields::{ParsedCode, ParsedCodeSpec, StructureInput, StructureInputSpec, spec_new};
use crate::soundness::{
    ComputedField, ComputedFieldSpec, LinkedCode, LinkedCodeSpec, PlainField, PlainFieldSpec,
    spec_check,
};

verus! {

/// The specification-level image of an optional string.
pub open spec fn opt_str_view(o: Option<String>) -> Option<Seq<char>> {
    match o {
        Option::Some(s) => Option::Some(s@),
        Option::None => Option::None,
    }
}

/// The text of a read accessor: it returns an immutable reference to
/// the field's current value and has no side effect.
pub open spec fn getter_text(name: Seq<char>, ty: Seq<char>) -> Seq<char> {
    "    pub fn get_"@ + name + "(&self) -> &"@ + ty + " {\n        &self."@ + name + "\n    }\n"@
}

/// The invalidation statement of a write accessor: clear the target
/// cell, or nothing when no target is configured.
pub open spec fn invalidate_text(target: Option<Seq<char>>) -> Seq<char> {
    match target {
        Option::Some(t) => "        self."@ + t + ".invalidate();\n"@,
        Option::None => Seq::<char>::empty(),
    }
}

/// The text of a write accessor: invalidate the configured target cell
/// first, unconditionally, then overwrite the field with the new value.
pub open spec fn setter_text(name: Seq<char>, ty: Seq<char>, target: Option<Seq<char>>) -> Seq<
    char,
> {
    "    pub fn set_"@ + name + "(&mut self, "@ + name + ": "@ + ty + ") {\n"@ + invalidate_text(
        target,
    ) + "        self."@ + name + " = "@ + name + ";\n    }\n"@
}

/// The text of one accessor of a plain field.
pub open spec fn accessor_text(
    a: Accessor,
    name: Seq<char>,
    ty: Seq<char>,
    target: Option<Seq<char>>,
) -> Seq<char> {
    match a {
        Accessor::Getter => getter_text(name, ty),
        Accessor::Setter => setter_text(name, ty, target),
    }
}

/// The argument list handed to a computing function: a reference to
/// each declared dependency field, in order.
pub open spec fn dep_args_text(deps: Seq<Seq<char>>) -> Seq<char>
    decreases deps.len(),
{
    if deps.len() == 0 {
        Seq::<char>::empty()
    } else {
        let rest = dep_args_text(deps.drop_last());
        if deps.len() == 1 {
            "&self."@ + deps.last()
        } else {
            rest + ", &self."@ + deps.last()
        }
    }
}

/// The text of a computed accessor: ask the field's cell for the cached
/// value, or compute one by calling the computing function on the
/// declared dependency fields.
pub open spec fn compute_text(
    name: Seq<char>,
    ty: Seq<char>,
    func: Seq<char>,
    deps: Seq<Seq<char>>,
) -> Seq<char> {
    "    pub fn compute_"@ + name + "(&mut self) -> &"@ + ty + " {\n        self."@ + name
        + ".get_or_init(|| "@ + func + "("@ + dep_args_text(deps) + "))\n    }\n"@
}

/// The `impl` block of one plain field: its accessors, `get` first.
pub open spec fn plain_impl_text(struct_ident: Seq<char>, f: PlainFieldSpec) -> Seq<char> {
    "impl "@ + struct_ident + " {\n"@ + (if f.get {
        getter_text(f.name, f.ty)
    } else {
        Seq::<char>::empty()
    }) + (if f.set {
        setter_text(f.name, f.ty, f.invalidates)
    } else {
        Seq::<char>::empty()
    }) + "}\n"@
}

/// The `impl` block of one computed field.
pub open spec fn computed_impl_text(struct_ident: Seq<char>, f: ComputedFieldSpec) -> Seq<char> {
    "impl "@ + struct_ident + " {\n"@ + compute_text(f.name, f.ty, f.func, f.deps) + "}\n"@
}

/// The `impl` blocks of the plain fields, in declaration order.
pub open spec fn plain_impls_text(struct_ident: Seq<char>, fs: Seq<PlainFieldSpec>) -> Seq<char>
    decreases fs.len(),
{
    if fs.len() == 0 {
        Seq::<char>::empty()
    } else {
        plain_impls_text(struct_ident, fs.drop_last()) + plain_impl_text(struct_ident, fs.last())
    }
}

/// The `impl` blocks of the computed fields, in declaration order.
pub open spec fn computed_impls_text(
    struct_ident: Seq<char>,
    fs: Seq<ComputedFieldSpec>,
) -> Seq<char>
    decreases fs.len(),
{
    if fs.len() == 0 {
        Seq::<char>::empty()
    } else {
        computed_impls_text(struct_ident, fs.drop_last()) + computed_impl_text(
            struct_ident,
            fs.last(),
        )
    }
}

/// The whole emitted text of a validated model: the plain fields'
/// blocks, then the computed fields' blocks, each group in declaration
/// order.
pub open spec fn linked_text(lc: LinkedCodeSpec) -> Seq<char> {
    plain_impls_text(lc.struct_ident, lc.plain) + computed_impls_text(lc.struct_ident, lc.computed)
}

/// What generation returns for a parsed field model: the emitted text,
/// or the soundness failure — never partial output.
pub open spec fn spec_generate_code(c: ParsedCodeSpec) -> Result<Seq<char>, GenError> {
    match spec_check(c) {
        Result::Ok(lc) => Result::Ok(linked_text(lc)),
        Result::Err(e) => Result::Err(e),
    }
}

/// What generation returns for an annotated item: the emitted text, or
/// the first failure of the pipeline — never partial output.
pub open spec fn spec_generate(input: StructureInputSpec) -> Result<Seq<char>, GenError> {
    match spec_new(input) {
        Result::Ok(c) => spec_generate_code(c),
        Result::Err(e) => Result::Err(e),
    }
}

/// Append a read accessor's text.
fn push_getter(out: &mut String, name: &String, ty: &String)
    ensures
        final(out)@ == old(out)@ + getter_text(name@, ty@),
{
    out.append("    pub fn get_");
    out.append(name.as_str());
    out.append("(&self) -> &");
    out.append(ty.as_str());
    out.append(" {\n        &self.");
    out.append(name.as_str());
    out.append("\n    }\n");
    proof {
        assert(out@ =~= old(out)@ + getter_text(name@, ty@));
    }
}

/// Append a write accessor's text.
fn push_setter(out: &mut String, name: &String, ty: &String, target: &Option<String>)
    ensures
        final(out)@ == old(out)@ + setter_text(name@, ty@, opt_str_view(*target)),
{
    out.append("    pub fn set_");
    out.append(name.as_str());
    out.append("(&mut self, ");
    out.append(name.as_str());
    out.append(": ");
    out.append(ty.as_str());
    out.append(") {\n");
    match target {
        Option::Some(t) => {
            out.append("        self.");
            out.append(t.as_str());
            out.append(".invalidate();\n");
        },
        Option::None => {},
    }
    out.append("        self.");
    out.append(name.as_str());
    out.append(" = ");
    out.append(name.as_str());
    out.append(";\n    }\n");
    proof {
        assert(out@ =~= old(out)@ + setter_text(name@, ty@, opt_str_view(*target)));
    }
}

/// Append the argument list handed to a computing function.
fn push_dep_args(out: &mut String, deps: &Vec<String>)
    ensures
        final(out)@ == old(out)@ + dep_args_text(deps@.map_values(|s: String| s@)),
{
    let ghost dv = deps@.map_values(|s: String| s@);
    let mut i: usize = 0;
    proof {
        assert(old(out)@ + dep_args_text(dv.take(0)) =~= old(out)@);
    }
    while i < deps.len()
        invariant
            0 <= i <= deps.len(),
            dv == deps@.map_values(|s: String| s@),
            dv.len() == deps@.len(),
            forall|j: int| 0 <= j < deps@.len() ==> dv[j] == deps@[j]@,
            out@ == old(out)@ + dep_args_text(dv.take(i as int)),
        decreases deps.len() - i,
    {
        if i == 0 {
            out.append("&self.");
        } else {
            out.append(", &self.");
        }
        out.append(deps[i].as_str());
        proof {
            assert(dv.take(i as int + 1).drop_last() =~= dv.take(i as int));
            assert(dv.take(i as int + 1).last() == dv[i as int]);
            assert(out@ =~= old(out)@ + dep_args_text(dv.take(i as int + 1)));
        }
        i += 1;
    }
    proof {
        assert(dv.take(deps@.len() as int) =~= dv);
    }
}

/// Append a computed accessor's text.
fn push_compute(out: &mut String, name: &String, ty: &String, func: &String, deps: &Vec<String>)
    ensures
        final(out)@ == old(out)@ + compute_text(
            name@,
            ty@,
            func@,
            deps@.map_values(|s: String| s@),
        ),
{
    out.append("    pub fn compute_");
    out.append(name.as_str());
    out.append("(&mut self) -> &");
    out.append(ty.as_str());
    out.append(" {\n        self.");
    out.append(name.as_str());
    out.append(".get_or_init(|| ");
    out.append(func.as_str());
    out.append("(");
    push_dep_args(out, deps);
    out.append("))\n    }\n");
    proof {
        assert(out@ =~= old(out)@ + compute_text(
            name@,
            ty@,
            func@,
            deps@.map_values(|s: String| s@),
        ));
    }
}

impl Accessor {
    /// The source text of one accessor of a plain field: `get_<field>`
    /// for [`Accessor::Getter`], `set_<field>` — invalidating the given
    /// target first — for [`Accessor::Setter`].
    pub fn accessor_fns(
        self,
        field_ident: &String,
        ty_text: &String,
        invalidates: &Option<String>,
    ) -> (r: String)
        ensures
            r@ == accessor_text(self, field_ident@, ty_text@, opt_str_view(*invalidates)),
    {
        let mut out = String::new();
        match self {
            Accessor::Getter => push_getter(&mut out, field_ident, ty_text),
            Accessor::Setter => push_setter(&mut out, field_ident, ty_text, invalidates),
        }
        proof {
            assert(out@ =~= accessor_text(self, field_ident@, ty_text@, opt_str_view(
                *invalidates,
            )));
        }
        out
    }
}

impl PlainField {
    /// The `impl` block carrying this field's accessors.
    pub fn accessor_field_impls(&self, struct_ident: &String) -> (r: String)
        ensures
            r@ == plain_impl_text(struct_ident@, self@),
    {
        let mut out = String::new();
        out.append("impl ");
        out.append(struct_ident.as_str());
        out.append(" {\n");
        if self.get {
            push_getter(&mut out, &self.name, &self.ty);
        }
        if self.set {
            push_setter(&mut out, &self.name, &self.ty, &self.invalidates);
        }
        out.append("}\n");
        proof {
            assert(out@ =~= plain_impl_text(struct_ident@, self@));
        }
        out
    }
}

impl ComputedField {
    /// The `impl` block carrying this field's computed accessor.
    pub fn compute_field_impl(&self, struct_ident: &String) -> (r: String)
        ensures
            r@ == computed_impl_text(struct_ident@, self@),
    {
        let mut out = String::new();
        out.append("impl ");
        out.append(struct_ident.as_str());
        out.append(" {\n");
        push_compute(&mut out, &self.name, &self.ty, &self.func, &self.deps);
        out.append("}\n");
        proof {
            assert(out@ =~= computed_impl_text(struct_ident@, self@));
        }
        out
    }
}

impl LinkedCode {
    /// The whole emitted text of the validated model: one `impl` block
    /// per field, plain fields first, each group in declaration order.
    pub fn into_tokens(&self) -> (r: String)
        ensures
            r@ == linked_text(self@),
    {
        let ghost pv = self.plain@.map_values(|f: PlainField| f@);
        let ghost cv = self.computed@.map_values(|f: ComputedField| f@);
        let mut out = String::new();
        let mut i: usize = 0;
        proof {
            assert(out@ + plain_impls_text(self.struct_ident@, pv.take(0)) =~= out@);
        }
        while i < self.plain.len()
            invariant
                0 <= i <= self.plain.len(),
                pv == self.plain@.map_values(|f: PlainField| f@),
                pv.len() == self.plain@.len(),
                forall|j: int| 0 <= j < self.plain@.len() ==> pv[j] == self.plain@[j]@,
                out@ == plain_impls_text(self.struct_ident@, pv.take(i as int)),
            decreases self.plain.len() - i,
        {
            let block = self.plain[i].accessor_field_impls(&self.struct_ident);
            out.append(block.as_str());
            proof {
                assert(pv.take(i as int + 1).drop_last() =~= pv.take(i as int));
                assert(pv.take(i as int + 1).last() == pv[i as int]);
            }
            i += 1;
        }
        proof {
            assert(pv.take(self.plain@.len() as int) =~= pv);
        }
        let mut i: usize = 0;
        proof {
            assert(out@ + computed_impls_text(self.struct_ident@, cv.take(0)) =~= out@);
        }
        while i < self.computed.len()
            invariant
                0 <= i <= self.computed.len(),
                cv == self.computed@.map_values(|f: ComputedField| f@),
                cv.len() == self.computed@.len(),
                forall|j: int| 0 <= j < self.computed@.len() ==> cv[j] == self.computed@[j]@,
                out@ == plain_impls_text(self.struct_ident@, pv) + computed_impls_text(
                    self.struct_ident@,
                    cv.take(i as int),
                ),
            decreases self.computed.len() - i,
        {
            let block = self.computed[i].compute_field_impl(&self.struct_ident);
            out.append(block.as_str());
            proof {
                assert(cv.take(i as int + 1).drop_last() =~= cv.take(i as int));
                assert(cv.take(i as int + 1).last() == cv[i as int]);
            }
            i += 1;
        }
        proof {
            assert(cv.take(self.computed@.len() as int) =~= cv);
        }
        out
    }
}

impl ParsedCode {
    /// Validate the field model and emit the accessor text, or report
    /// the first soundness failure without emitting anything.
    pub fn into_tokens(&self) -> (r: Result<String, GenError>)
        ensures
            match r {
                Result::Ok(s) => spec_generate_code(self@) == Result::<Seq<char>, GenError>::Ok(
                    s@,
                ),
                Result::Err(e) => spec_generate_code(self@) == Result::<Seq<char>, GenError>::Err(
                    e,
                ),
            },
    {
        match self.check_soundness() {
            Result::Ok(lc) => Result::Ok(lc.into_tokens()),
            Result::Err(e) => Result::Err(e),
        }
    }
}

/// No partial output: whenever the soundness check refuses a structure,
/// generation for it emits nothing and surfaces that same failure.
pub proof fn lemma_no_partial_output(c: ParsedCodeSpec)
    requires
        spec_check(c) is Err,
    ensures
        spec_generate_code(c) is Err,
        spec_generate_code(c)->Err_0 == spec_check(c)->Err_0,
{
}

/// Run the whole pipeline for one annotated item: build the field
/// model, check its soundness, and emit the accessor text — or report
/// the first failure, emitting nothing.
pub fn generate(input: &StructureInput) -> (r: Result<String, GenError>)
    ensures
        match r {
            Result::Ok(s) => spec_generate(input@) == Result::<Seq<char>, GenError>::Ok(s@),
            Result::Err(e) => spec_generate(input@) == Result::<Seq<char>, GenError>::Err(e),
        },
{
    match ParsedCode::new(input) {
        Result::Ok(c) => c.into_tokens(),
        Result::Err(e) => Result::Err(e),
    }
}

} // verus!
