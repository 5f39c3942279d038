//! Laws of resolution, stated over the specification and proved.

use vstd::prelude::*;
use crate::error::ErrorView;
use crate::resolve::{
    lemma_resolve_fields_prefix_err, resolve_field, resolve_fields, resolve_node, ValueView,
};
use crate::scalar::{parse_scalar, ScalarType};
use crate::schema::{FieldDescriptor, FieldKind, SchemaNode};
use crate::text::{joined, lemma_upper_concat, trimmed, upper};

verus! {

/// The scalar type of a leaf field.
pub open spec fn leaf_type(f: FieldDescriptor) -> ScalarType {
    match f.kind {
        FieldKind::Scalar(ty) => ty,
        FieldKind::Optional(ty) => ty,
        FieldKind::Nested(_) => ScalarType::Text,
    }
}

/// Every leaf under field `f` can be read: a scalar's variable is present and
/// parses, or is absent and its default parses; an optional's variable, when
/// present, parses.
pub open spec fn field_readable(
    f: FieldDescriptor,
    prefix: Seq<char>,
    env: Map<Seq<char>, Seq<char>>,
) -> bool
    decreases f,
{
    let name = f.var_name_at(prefix);
    match f.kind {
        FieldKind::Scalar(ty) => {
            if env.contains_key(name) {
                parse_scalar(ty, env[name]) is Some
            } else {
                f.default matches Some(d) && parse_scalar(ty, d@) is Some
            }
        },
        FieldKind::Optional(ty) => env.contains_key(name) ==> parse_scalar(ty, env[name]) is Some,
        FieldKind::Nested(n) => fields_readable(
            n.fields@,
            n.effective_prefix_at(f.child_prefix_at(prefix)),
            env,
        ),
    }
}

/// Every leaf under each of the fields `fs` can be read.
pub open spec fn fields_readable(
    fs: Seq<FieldDescriptor>,
    prefix: Seq<char>,
    env: Map<Seq<char>, Seq<char>>,
) -> bool
    decreases fs,
{
    if fs.len() == 0 {
        true
    } else {
        fields_readable(fs.subrange(0, fs.len() - 1), prefix, env) && field_readable(
            fs[fs.len() - 1],
            prefix,
            env,
        )
    }
}

/// The value of field `f` when each leaf is the parse of its variable's text,
/// or of its default where the variable is absent.
pub open spec fn field_parsed(
    f: FieldDescriptor,
    prefix: Seq<char>,
    env: Map<Seq<char>, Seq<char>>,
) -> ValueView
    decreases f,
{
    let name = f.var_name_at(prefix);
    match f.kind {
        FieldKind::Scalar(ty) => {
            let text = if env.contains_key(name) {
                env[name]
            } else {
                f.default->0@
            };
            ValueView::Scalar(parse_scalar(ty, text)->0)
        },
        FieldKind::Optional(ty) => {
            if env.contains_key(name) {
                ValueView::Optional(Some(parse_scalar(ty, env[name])->0))
            } else {
                ValueView::Optional(None)
            }
        },
        FieldKind::Nested(n) => ValueView::Node(
            fields_parsed(n.fields@, n.effective_prefix_at(f.child_prefix_at(prefix)), env),
        ),
    }
}

/// The values of the fields `fs`, each leaf parsed from its variable's text.
pub open spec fn fields_parsed(
    fs: Seq<FieldDescriptor>,
    prefix: Seq<char>,
    env: Map<Seq<char>, Seq<char>>,
) -> Seq<ValueView>
    decreases fs,
{
    if fs.len() == 0 {
        Seq::empty()
    } else {
        fields_parsed(fs.subrange(0, fs.len() - 1), prefix, env).push(
            field_parsed(fs[fs.len() - 1], prefix, env),
        )
    }
}

proof fn lemma_field_readable(f: FieldDescriptor, prefix: Seq<char>, env: Map<Seq<char>, Seq<char>>)
    requires
        field_readable(f, prefix, env),
    ensures
        resolve_field(f, prefix, env) == Ok::<ValueView, ErrorView>(field_parsed(f, prefix, env)),
    decreases f,
{
    if let FieldKind::Nested(n) = f.kind {
        lemma_fields_readable(n.fields@, n.effective_prefix_at(f.child_prefix_at(prefix)), env);
    }
}

proof fn lemma_fields_readable(
    fs: Seq<FieldDescriptor>,
    prefix: Seq<char>,
    env: Map<Seq<char>, Seq<char>>,
)
    requires
        fields_readable(fs, prefix, env),
    ensures
        resolve_fields(fs, prefix, env) == Ok::<Seq<ValueView>, ErrorView>(
            fields_parsed(fs, prefix, env),
        ),
    decreases fs,
{
    if fs.len() > 0 {
        lemma_fields_readable(fs.subrange(0, fs.len() - 1), prefix, env);
        lemma_field_readable(fs[fs.len() - 1], prefix, env);
    }
}

/// Where every leaf can be read, resolution succeeds, and each leaf value is
/// the parse of its variable's text (or of its default, where the variable
/// is absent).
pub proof fn law_readable_schema_resolves(
    n: SchemaNode,
    incoming: Seq<char>,
    env: Map<Seq<char>, Seq<char>>,
)
    requires
        fields_readable(n.fields@, n.effective_prefix_at(incoming), env),
    ensures
        resolve_node(n, incoming, env) == Ok::<ValueView, ErrorView>(
            ValueView::Node(fields_parsed(n.fields@, n.effective_prefix_at(incoming), env)),
        ),
{
    lemma_fields_readable(n.fields@, n.effective_prefix_at(incoming), env);
}

/// The first field that fails decides the error of the whole structure.
pub proof fn law_first_failure_wins(
    n: SchemaNode,
    incoming: Seq<char>,
    env: Map<Seq<char>, Seq<char>>,
    i: int,
)
    requires
        0 <= i < n.fields@.len(),
        resolve_fields(n.fields@.take(i), n.effective_prefix_at(incoming), env) is Ok,
        resolve_field(n.fields@[i], n.effective_prefix_at(incoming), env) is Err,
    ensures
        resolve_node(n, incoming, env) == Err::<ValueView, ErrorView>(
            resolve_field(n.fields@[i], n.effective_prefix_at(incoming), env)->Err_0,
        ),
{
    let fs = n.fields@;
    assert(fs.take(i + 1).subrange(0, i) == fs.take(i));
    assert(fs.take(i + 1)[i] == fs[i]);
    lemma_resolve_fields_prefix_err(fs, i + 1, n.effective_prefix_at(incoming), env);
}

/// An absent required scalar always fails resolution; when every earlier
/// field resolves, the error names the variable that the field reads.
pub proof fn law_missing_required_scalar(
    n: SchemaNode,
    incoming: Seq<char>,
    env: Map<Seq<char>, Seq<char>>,
    i: int,
)
    requires
        0 <= i < n.fields@.len(),
        n.fields@[i].kind is Scalar,
        n.fields@[i].default is None,
        !env.contains_key(n.fields@[i].var_name_at(n.effective_prefix_at(incoming))),
    ensures
        resolve_node(n, incoming, env) is Err,
        resolve_fields(n.fields@.take(i), n.effective_prefix_at(incoming), env) is Ok
            ==> resolve_node(n, incoming, env) == Err::<ValueView, ErrorView>(
            ErrorView::MissingEnvVar {
                var_name: n.fields@[i].var_name_at(n.effective_prefix_at(incoming)),
            },
        ),
{
    let prefix = n.effective_prefix_at(incoming);
    if resolve_fields(n.fields@.take(i), prefix, env) is Ok {
        law_first_failure_wins(n, incoming, env, i);
    } else {
        lemma_resolve_fields_prefix_err(n.fields@, i, prefix, env);
    }
}

/// An optional field whose variable is absent resolves to no value, never
/// to an error.
pub proof fn law_optional_absent_is_none(
    f: FieldDescriptor,
    prefix: Seq<char>,
    env: Map<Seq<char>, Seq<char>>,
)
    requires
        f.kind is Optional,
        !env.contains_key(f.var_name_at(prefix)),
    ensures
        resolve_field(f, prefix, env) == Ok::<ValueView, ErrorView>(ValueView::Optional(None)),
{
}

/// A present variable that does not parse fails its leaf, scalar or
/// optional, naming the variable, the expected type and the raw text; when
/// every earlier field resolves, that is the error of the whole structure.
pub proof fn law_unparsable_value(
    n: SchemaNode,
    incoming: Seq<char>,
    env: Map<Seq<char>, Seq<char>>,
    i: int,
)
    requires
        0 <= i < n.fields@.len(),
        n.fields@[i].kind is Scalar || n.fields@[i].kind is Optional,
        env.contains_key(n.fields@[i].var_name_at(n.effective_prefix_at(incoming))),
        parse_scalar(
            leaf_type(n.fields@[i]),
            env[n.fields@[i].var_name_at(n.effective_prefix_at(incoming))],
        ) is None,
    ensures
        ({
            let name = n.fields@[i].var_name_at(n.effective_prefix_at(incoming));
            let failure = ErrorView::ParsingFailure {
                var_name: name,
                expected_type: leaf_type(n.fields@[i]).spec_name(),
                str_value: env[name],
            };
            &&& resolve_field(n.fields@[i], n.effective_prefix_at(incoming), env)
                == Err::<ValueView, ErrorView>(failure)
            &&& resolve_node(n, incoming, env) is Err
            &&& resolve_fields(n.fields@.take(i), n.effective_prefix_at(incoming), env) is Ok
                ==> resolve_node(n, incoming, env) == Err::<ValueView, ErrorView>(failure)
        }),
{
    let prefix = n.effective_prefix_at(incoming);
    if resolve_fields(n.fields@.take(i), prefix, env) is Ok {
        law_first_failure_wins(n, incoming, env, i);
    } else {
        lemma_resolve_fields_prefix_err(n.fields@, i, prefix, env);
    }
}

/// A leaf with an explicit variable reads that variable under any prefix,
/// and resolves alike under any two prefixes.
pub proof fn law_var_ignores_prefix(
    f: FieldDescriptor,
    p1: Seq<char>,
    p2: Seq<char>,
    env: Map<Seq<char>, Seq<char>>,
)
    requires
        f.var is Some,
        !(f.kind is Nested),
    ensures
        f.var_name_at(p1) == f.var->0@,
        f.var_name_at(p2) == f.var->0@,
        resolve_field(f, p1, env) == resolve_field(f, p2, env),
{
}

/// A structure's own prefix composes after the incoming one: resolving it
/// through `incoming` is resolving its fields, without an own prefix, through
/// the joined prefix.
pub proof fn law_own_prefix_composes(n: SchemaNode, incoming: Seq<char>, env: Map<Seq<char>, Seq<char>>)
    requires
        n.own_prefix is Some,
    ensures
        resolve_node(n, incoming, env) == resolve_node(
            SchemaNode { fields: n.fields, own_prefix: None },
            joined(incoming, trimmed(n.own_prefix->0@)),
            env,
        ),
{
}

/// A composed prefix written out in front of a field name: the prefix and an
/// underscore, or nothing for an empty prefix.
pub open spec fn spelled_out(prefix: Seq<char>) -> Seq<char> {
    if prefix.len() == 0 {
        Seq::empty()
    } else {
        prefix + seq!['_']
    }
}

/// The text that a field's name fragment is the upper case of.
pub open spec fn fragment_source(f: FieldDescriptor) -> Seq<char> {
    match f.rename {
        Some(r) => r@,
        None => f.name@,
    }
}

/// Field `g` is field `f` with `s` written in front of its name (or rename),
/// and otherwise the same; `f` is not a nested field that leaves its
/// fragment out of the prefix chain.
pub open spec fn spelled_field(f: FieldDescriptor, g: FieldDescriptor, s: Seq<char>) -> bool {
    &&& g.kind == f.kind
    &&& g.var == f.var
    &&& g.default == f.default
    &&& g.no_prefix == f.no_prefix
    &&& fragment_source(g) == s + fragment_source(f)
    &&& !(f.kind is Nested && f.no_prefix)
}

proof fn lemma_spelled_field(
    f: FieldDescriptor,
    g: FieldDescriptor,
    prefix: Seq<char>,
    env: Map<Seq<char>, Seq<char>>,
)
    requires
        spelled_field(f, g, spelled_out(prefix)),
        upper(spelled_out(prefix)) == spelled_out(prefix),
    ensures
        resolve_field(g, Seq::empty(), env) == resolve_field(f, prefix, env),
{
    let s = spelled_out(prefix);
    lemma_upper_concat(s, fragment_source(f));
    assert(g.name_fragment() == s + f.name_fragment());
    assert(joined(Seq::empty(), g.name_fragment()) == joined(prefix, f.name_fragment()));
}

proof fn lemma_spelled_fields(
    fs: Seq<FieldDescriptor>,
    gs: Seq<FieldDescriptor>,
    prefix: Seq<char>,
    env: Map<Seq<char>, Seq<char>>,
)
    requires
        fs.len() == gs.len(),
        upper(spelled_out(prefix)) == spelled_out(prefix),
        forall|i: int| 0 <= i < fs.len() ==> spelled_field(fs[i], gs[i], spelled_out(prefix)),
    ensures
        resolve_fields(gs, Seq::empty(), env) == resolve_fields(fs, prefix, env),
    decreases fs.len(),
{
    if fs.len() > 0 {
        let k = fs.len() - 1;
        lemma_spelled_fields(fs.subrange(0, k), gs.subrange(0, k), prefix, env);
        lemma_spelled_field(fs[k], gs[k], prefix, env);
    }
}

/// Prefix composition is associative: a structure reached through
/// `incoming`, with or without an own prefix, names and resolves its fields
/// exactly as a flat structure at the root whose field names (or renames)
/// carry the composed prefix written out in front. Where a field leaves its
/// fragment out of the prefix chain there is no name to write it on, so such
/// fields are left out; the written-out prefix is its own upper case.
pub proof fn law_prefix_associative(
    n: SchemaNode,
    flat: SchemaNode,
    incoming: Seq<char>,
    env: Map<Seq<char>, Seq<char>>,
)
    requires
        flat.own_prefix is None,
        flat.fields@.len() == n.fields@.len(),
        upper(spelled_out(n.effective_prefix_at(incoming))) == spelled_out(
            n.effective_prefix_at(incoming),
        ),
        forall|i: int|
            0 <= i < n.fields@.len() ==> spelled_field(
                n.fields@[i],
                flat.fields@[i],
                spelled_out(n.effective_prefix_at(incoming)),
            ),
    ensures
        resolve_node(n, incoming, env) == resolve_node(flat, Seq::empty(), env),
{
    lemma_spelled_fields(n.fields@, flat.fields@, n.effective_prefix_at(incoming), env);
}

/// A nested field that leaves its fragment out of the prefix chain resolves
/// its structure with the prefix it was given, unchanged; so neither its
/// name nor its rename reaches any variable beneath it.
pub proof fn law_no_prefix_keeps_prefix(
    f: FieldDescriptor,
    g: FieldDescriptor,
    prefix: Seq<char>,
    env: Map<Seq<char>, Seq<char>>,
)
    requires
        f.kind is Nested,
        f.no_prefix,
        g.kind == f.kind,
        g.no_prefix,
    ensures
        resolve_field(f, prefix, env) == resolve_node(f.kind->Nested_0, prefix, env),
        resolve_field(g, prefix, env) == resolve_field(f, prefix, env),
{
}

} // verus!
