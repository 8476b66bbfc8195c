use vstd::prelude::*;
use vstd::string::StrSliceExecFns;
use vstd::string::StringExecFns;
use crate::variant::{ShaderDialect, ShaderOptimizationInput, VariantView};

verus! {

/// `s` with each comma replaced by an underscore, the other characters kept in order.
pub open spec fn underscored(s: Seq<char>) -> Seq<char> {
    s.map_values(|c: char| if c == ',' { '_' } else { c })
}

/// The variant's name: the shader's name alone for the base configuration,
/// else the name, an underscore and the configuration with its commas made underscores.
pub open spec fn variant_name_of(name: Seq<char>, config: Seq<char>) -> Seq<char> {
    if config.len() == 0 {
        name
    } else {
        name + seq!['_'] + underscored(config)
    }
}

/// How a dialect is spelled in file names.
pub open spec fn dialect_tag(d: ShaderDialect) -> Seq<char> {
    match d {
        ShaderDialect::Gl => seq!['G', 'l'],
        ShaderDialect::Gles => seq!['G', 'l', 'e', 's'],
    }
}

/// The base file name of a task's outputs: its variant name, an underscore and its dialect.
pub open spec fn base_filename_of(v: VariantView) -> Seq<char> {
    variant_name_of(v.name, v.config) + seq!['_'] + dialect_tag(v.dialect)
}

/// The dialect as it is spelled in file names.
pub fn dialect_name(d: ShaderDialect) -> (r: &'static str)
    ensures
        r@ == dialect_tag(d),
{
    proof {
        reveal_strlit("Gl");
        reveal_strlit("Gles");
    }
    match d {
        ShaderDialect::Gl => "Gl",
        ShaderDialect::Gles => "Gles",
    }
}

/// `s` with each comma replaced by an underscore.
pub fn replace_commas(s: &str) -> (r: String)
    ensures
        r@ == underscored(s@),
{
    let n = s.unicode_len();
    let mut out = String::new();
    let mut i: usize = 0;
    while i < n
        invariant
            n == s@.len(),
            i <= n,
            out@ == underscored(s@.subrange(0, i as int)),
        decreases n - i,
    {
        let c = s.get_char(i);
        if c == ',' {
            proof {
                reveal_strlit("_");
            }
            out.append("_");
        } else {
            let piece = s.substring_char(i, i + 1);
            assert(piece@ =~= seq![c]);
            out.append(piece);
        }
        proof {
            assert(s@.subrange(0, i + 1) =~= s@.subrange(0, i as int).push(c));
            assert(underscored(s@.subrange(0, i + 1)) =~= underscored(s@.subrange(0, i as int)).push(
                if c == ',' { '_' } else { c },
            ));
        }
        i = i + 1;
    }
    proof {
        assert(s@.subrange(0, n as int) =~= s@);
    }
    out
}

/// The task's variant name, which tells its configuration apart from the
/// shader's other configurations.
pub fn variant_name(item: &ShaderOptimizationInput) -> (r: String)
    ensures
        r@ == variant_name_of(item@.name, item@.config),
{
    proof {
        reveal_strlit("_");
    }
    let name = item.shader_name.as_str();
    let config = item.config.as_str();
    if config.is_empty() {
        String::from_str(name)
    } else {
        let mut out = String::from_str(name);
        out.append("_");
        let tail = replace_commas(config);
        out.append(tail.as_str());
        out
    }
}

/// The base file name under which the task's outputs are written.
pub fn base_filename(item: &ShaderOptimizationInput) -> (r: String)
    ensures
        r@ == base_filename_of(item@),
{
    proof {
        reveal_strlit("_");
    }
    let mut out = variant_name(item);
    out.append("_");
    out.append(dialect_name(item.gl_version));
    out
}

/// The vertex and fragment file names for a base file name.
pub fn shader_file_names(base: &str) -> (r: (String, String))
    ensures
        r.0@ == base@ + seq!['.', 'v', 'e', 'r', 't'],
        r.1@ == base@ + seq!['.', 'f', 'r', 'a', 'g'],
{
    proof {
        reveal_strlit(".vert");
        reveal_strlit(".frag");
    }
    let mut vert = String::from_str(base);
    vert.append(".vert");
    let mut frag = String::from_str(base);
    frag.append(".frag");
    (vert, frag)
}

/// The base file name depends on the task's fields alone: equal tasks get the
/// same name in every run.
pub proof fn lemma_base_filename_deterministic(a: VariantView, b: VariantView)
    requires
        a == b,
    ensures
        base_filename_of(a) == base_filename_of(b),
{
}

/// Tasks of different dialects never share a base file name.
pub proof fn lemma_dialects_never_collide(a: VariantView, b: VariantView)
    requires
        a.dialect != b.dialect,
    ensures
        base_filename_of(a) != base_filename_of(b),
{
    let fa = base_filename_of(a);
    let fb = base_filename_of(b);
    assert(fa.last() == dialect_tag(a.dialect).last());
    assert(fb.last() == dialect_tag(b.dialect).last());
}

/// Tasks of one dialect share a base file name only where they share a variant name.
pub proof fn lemma_same_dialect_names(a: VariantView, b: VariantView)
    requires
        a.dialect == b.dialect,
        variant_name_of(a.name, a.config) != variant_name_of(b.name, b.config),
    ensures
        base_filename_of(a) != base_filename_of(b),
{
    let va = variant_name_of(a.name, a.config);
    let vb = variant_name_of(b.name, b.config);
    let t = seq!['_'] + dialect_tag(a.dialect);
    assert(base_filename_of(a) =~= va + t);
    assert(base_filename_of(b) =~= vb + t);
    if va + t == vb + t {
        assert(va =~= (va + t).subrange(0, va.len() as int));
        assert(vb =~= (vb + t).subrange(0, vb.len() as int));
    }
}

} // verus!
