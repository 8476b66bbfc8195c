use vstd::prelude::*;
use crate::config::strings_view;
use crate::naming::{base_filename_of, variant_name_of, lemma_dialects_never_collide, lemma_same_dialect_names};
use crate::variant::{ShaderDialect, ShaderOptimizationInput, VariantView};
use webrender_build::shader_features::{get_shader_features, ShaderFeatureFlags};

verus! {

/// Every feature flag that the shader sources know.
pub const ALL_FEATURE_BITS: u32 = 0x7f03;
/// The flag of features that only desktop OpenGL has.
pub const GL_FEATURE_BIT: u32 = 0x1;
/// The flag of features that only OpenGL ES has.
pub const GLES_FEATURE_BIT: u32 = 0x2;
/// The flag of external textures, an OpenGL ES extension.
pub const TEXTURE_EXTERNAL_BIT: u32 = 0x800;
/// The flag of external textures in ESSL 1, an OpenGL ES extension.
pub const TEXTURE_EXTERNAL_ESSL1_BIT: u32 = 0x1000;

/// Relies on `ShaderFeatureFlags::all`: the union of the flags that
/// webrender_build declares.
#[verifier::external_body]
fn all_feature_flags() -> (r: u32)
    ensures
        r == ALL_FEATURE_BITS,
{
    ShaderFeatureFlags::all().bits()
}

/// Relies on `ShaderFeatureFlags::GL`.
#[verifier::external_body]
fn gl_feature_flag() -> (r: u32)
    ensures
        r == GL_FEATURE_BIT,
{
    ShaderFeatureFlags::GL.bits()
}

/// Relies on `ShaderFeatureFlags::GLES`.
#[verifier::external_body]
fn gles_feature_flag() -> (r: u32)
    ensures
        r == GLES_FEATURE_BIT,
{
    ShaderFeatureFlags::GLES.bits()
}

/// Relies on `ShaderFeatureFlags::TEXTURE_EXTERNAL`.
#[verifier::external_body]
fn texture_external_flag() -> (r: u32)
    ensures
        r == TEXTURE_EXTERNAL_BIT,
{
    ShaderFeatureFlags::TEXTURE_EXTERNAL.bits()
}

/// Relies on `ShaderFeatureFlags::TEXTURE_EXTERNAL_ESSL1`.
#[verifier::external_body]
fn texture_external_essl1_flag() -> (r: u32)
    ensures
        r == TEXTURE_EXTERNAL_ESSL1_BIT,
{
    ShaderFeatureFlags::TEXTURE_EXTERNAL_ESSL1.bits()
}

/// The shaders and their configurations that webrender_build gives for a set
/// of feature flags, keyed by shader name.
pub uninterp spec fn shader_feature_map(flags: u32) -> Map<Seq<char>, Seq<Seq<char>>>;

/// `fs` lists the entries of `m`: each shader once, with its configurations.
pub open spec fn lists_feature_map(
    fs: Seq<(String, Vec<String>)>,
    m: Map<Seq<char>, Seq<Seq<char>>>,
) -> bool {
    &&& shader_names_distinct(fs)
    &&& forall|k: Seq<char>|
        m.dom().contains(k) <==> exists|i: int| 0 <= i < fs.len() && #[trigger] fs[i].0@ == k
    &&& forall|i: int| 0 <= i < fs.len() ==> m[#[trigger] fs[i].0@] == strings_view(fs[i].1@)
}

/// Relies on `get_shader_features`: the shaders and their configurations for a
/// set of feature flags, which depend on the flags alone. It fills a `HashMap`,
/// so each shader comes once, in no fixed order.
#[verifier::external_body]
fn shader_features(flags: u32) -> (r: Vec<(String, Vec<String>)>)
    ensures
        lists_feature_map(r@, shader_feature_map(flags)),
{
    get_shader_features(ShaderFeatureFlags::from_bits_truncate(flags))
        .into_iter()
        .map(|(name, configs)| (name.to_string(), configs))
        .collect()
}

/// No shader is listed twice.
pub open spec fn shader_names_distinct(fs: Seq<(String, Vec<String>)>) -> bool {
    forall|i: int, j: int| 0 <= i < j < fs.len() ==> fs[i].0@ != fs[j].0@
}

/// The feature flags that apply to a dialect: all of them, less those of the other dialect.
pub open spec fn dialect_bits_of(d: ShaderDialect) -> u32 {
    match d {
        ShaderDialect::Gl => ALL_FEATURE_BITS & !GLES_FEATURE_BIT & !TEXTURE_EXTERNAL_BIT
            & !TEXTURE_EXTERNAL_ESSL1_BIT,
        ShaderDialect::Gles => ALL_FEATURE_BITS & !GL_FEATURE_BIT,
    }
}

/// The feature flags that apply to a dialect.
pub fn dialect_feature_flags(d: ShaderDialect) -> (r: u32)
    ensures
        r == dialect_bits_of(d),
{
    let mut flags = all_feature_flags();
    if d != ShaderDialect::Gl {
        flags = flags & !gl_feature_flag();
    }
    if d != ShaderDialect::Gles {
        flags = flags & !gles_feature_flag();
        flags = flags & !texture_external_flag();
        flags = flags & !texture_external_essl1_flag();
    }
    flags
}

/// The tasks for one shader: one per configuration, in order.
pub open spec fn shader_items(name: Seq<char>, configs: Seq<String>, d: ShaderDialect) -> Seq<
    VariantView,
> {
    configs.map_values(|c: String| VariantView { name, config: c@, dialect: d })
}

/// The tasks for one dialect: for each shader in order, one per configuration.
pub open spec fn dialect_items(d: ShaderDialect, fs: Seq<(String, Vec<String>)>) -> Seq<
    VariantView,
>
    decreases fs.len(),
{
    if fs.len() == 0 {
        Seq::empty()
    } else {
        dialect_items(d, fs.drop_last()) + shader_items(fs.last().0@, fs.last().1@, d)
    }
}

/// The tasks for both dialects: those for desktop OpenGL, then those for OpenGL ES.
pub open spec fn all_items(gl: Seq<(String, Vec<String>)>, gles: Seq<(String, Vec<String>)>) -> Seq<
    VariantView,
> {
    dialect_items(ShaderDialect::Gl, gl) + dialect_items(ShaderDialect::Gles, gles)
}

/// What a list of tasks holds.
pub open spec fn items_view(v: Seq<ShaderOptimizationInput>) -> Seq<VariantView> {
    v.map_values(|t: ShaderOptimizationInput| t@)
}

/// Appends to `out` the tasks of `d` for each shader and configuration of `features`.
fn push_dialect_items(
    d: ShaderDialect,
    features: &Vec<(String, Vec<String>)>,
    out: &mut Vec<ShaderOptimizationInput>,
)
    ensures
        items_view(final(out)@) == items_view(old(out)@) + dialect_items(d, features@),
{
    let ghost start = items_view(out@);
    let mut i: usize = 0;
    while i < features.len()
        invariant
            i <= features.len(),
            items_view(out@) == start + dialect_items(d, features@.subrange(0, i as int)),
        decreases features.len() - i,
    {
        let name = &features[i].0;
        let configs = &features[i].1;
        let ghost before = items_view(out@);
        let mut k: usize = 0;
        while k < configs.len()
            invariant
                i < features.len(),
                name == &features@[i as int].0,
                configs == &features@[i as int].1,
                k <= configs.len(),
                items_view(out@) == before + shader_items(
                    name@,
                    configs@.subrange(0, k as int),
                    d,
                ),
            decreases configs.len() - k,
        {
            let item = ShaderOptimizationInput::new(name.clone(), configs[k].clone(), d);
            let ghost prev = out@;
            out.push(item);
            assert(items_view(out@) =~= items_view(prev).push(item@));
            assert(shader_items(name@, configs@.subrange(0, k + 1), d) =~= shader_items(
                name@,
                configs@.subrange(0, k as int),
                d,
            ).push(item@));
            k = k + 1;
        }
        assert(configs@.subrange(0, k as int) =~= configs@);
        let ghost next = features@.subrange(0, i + 1);
        assert(next.drop_last() =~= features@.subrange(0, i as int));
        assert(next.last() == features@[i as int]);
        i = i + 1;
    }
    assert(features@.subrange(0, i as int) =~= features@);
}

/// One task per shader and configuration of each dialect's feature list: those
/// of desktop OpenGL first, then those of OpenGL ES. Nothing is deduplicated.
pub fn enumerate_variants(
    gl_features: &Vec<(String, Vec<String>)>,
    gles_features: &Vec<(String, Vec<String>)>,
) -> (r: Vec<ShaderOptimizationInput>)
    ensures
        items_view(r@) == all_items(gl_features@, gles_features@),
{
    let mut out: Vec<ShaderOptimizationInput> = Vec::new();
    assert(items_view(out@) =~= Seq::<VariantView>::empty());
    push_dialect_items(ShaderDialect::Gl, gl_features, &mut out);
    push_dialect_items(ShaderDialect::Gles, gles_features, &mut out);
    assert(items_view(out@) =~= all_items(gl_features@, gles_features@));
    out
}

/// Every task to build: each shader with each configuration that its dialect's
/// feature flags give, for desktop OpenGL and then OpenGL ES. Only the order of
/// the shaders within a dialect is left open.
pub fn collect_shader_variants() -> (r: Vec<ShaderOptimizationInput>)
    ensures
        exists|gl: Seq<(String, Vec<String>)>, gles: Seq<(String, Vec<String>)>|
            lists_feature_map(gl, shader_feature_map(dialect_bits_of(ShaderDialect::Gl)))
                && lists_feature_map(
                gles,
                shader_feature_map(dialect_bits_of(ShaderDialect::Gles)),
            ) && items_view(r@) == #[trigger] all_items(gl, gles),
{
    let gl = shader_features(dialect_feature_flags(ShaderDialect::Gl));
    let gles = shader_features(dialect_feature_flags(ShaderDialect::Gles));
    let r = enumerate_variants(&gl, &gles);
    assert(lists_feature_map(gl@, shader_feature_map(dialect_bits_of(ShaderDialect::Gl)))
        && lists_feature_map(gles@, shader_feature_map(dialect_bits_of(ShaderDialect::Gles)))
        && items_view(r@) == all_items(gl@, gles@));
    r
}

/// The pair of a shader's entry and one of its configurations.
pub open spec fn entry_task(
    fs: Seq<(String, Vec<String>)>,
    i: int,
    k: int,
    d: ShaderDialect,
) -> VariantView {
    VariantView { name: fs[i].0@, config: fs[i].1@[k]@, dialect: d }
}

/// Each task for a dialect comes from one shader entry and one of its configurations.
pub proof fn lemma_dialect_item_source(d: ShaderDialect, fs: Seq<(String, Vec<String>)>, n: int)
    requires
        0 <= n < dialect_items(d, fs).len(),
    ensures
        exists|i: int, k: int|
            0 <= i < fs.len() && 0 <= k < fs[i].1@.len() && dialect_items(d, fs)[n]
                == #[trigger] entry_task(fs, i, k, d),
    decreases fs.len(),
{
    let pre = dialect_items(d, fs.drop_last());
    let last = fs.len() - 1;
    if n < pre.len() {
        lemma_dialect_item_source(d, fs.drop_last(), n);
        let (i, k) = choose|i: int, k: int|
            0 <= i < fs.drop_last().len() && 0 <= k < fs.drop_last()[i].1@.len() && pre[n]
                == #[trigger] entry_task(fs.drop_last(), i, k, d);
        assert(entry_task(fs.drop_last(), i, k, d) == entry_task(fs, i, k, d));
    } else {
        let k = n - pre.len();
        assert(dialect_items(d, fs)[n] == entry_task(fs, last, k, d));
    }
}

/// Configuration lists whose distinct (shader, configuration) pairs have distinct variant names.
pub open spec fn variant_names_separable(fs: Seq<(String, Vec<String>)>) -> bool {
    forall|i: int, k: int, j: int, l: int|
        #![trigger entry_task(fs, i, k, ShaderDialect::Gl), entry_task(fs, j, l, ShaderDialect::Gl)]
        0 <= i < fs.len() && 0 <= k < fs[i].1@.len() && 0 <= j < fs.len() && 0 <= l
            < fs[j].1@.len() && (fs[i].0@ != fs[j].0@ || fs[i].1@[k]@ != fs[j].1@[l]@)
            ==> variant_name_of(fs[i].0@, fs[i].1@[k]@) != variant_name_of(
            fs[j].0@,
            fs[j].1@[l]@,
        )
}

/// Distinct tasks of one enumeration never share an output file name, where
/// each dialect's configuration lists keep variant names apart.
pub proof fn lemma_enumerated_filenames_unique(
    gl: Seq<(String, Vec<String>)>,
    gles: Seq<(String, Vec<String>)>,
    m: int,
    n: int,
)
    requires
        variant_names_separable(gl),
        variant_names_separable(gles),
        0 <= m < all_items(gl, gles).len(),
        0 <= n < all_items(gl, gles).len(),
        all_items(gl, gles)[m] != all_items(gl, gles)[n],
    ensures
        base_filename_of(all_items(gl, gles)[m]) != base_filename_of(all_items(gl, gles)[n]),
{
    let a = all_items(gl, gles)[m];
    let b = all_items(gl, gles)[n];
    if a.dialect != b.dialect {
        lemma_dialects_never_collide(a, b);
    } else {
        lemma_task_in_dialect(gl, gles, m);
        lemma_task_in_dialect(gl, gles, n);
        let fs = if a.dialect == ShaderDialect::Gl { gl } else { gles };
        assert(variant_names_separable(fs));
        assert(dialect_task_source(fs, a));
        assert(dialect_task_source(fs, b));
        let (i, k) = choose|i: int, k: int|
            0 <= i < fs.len() && 0 <= k < fs[i].1@.len() && a == #[trigger] entry_task(
                fs,
                i,
                k,
                a.dialect,
            );
        let (j, l) = choose|j: int, l: int|
            0 <= j < fs.len() && 0 <= l < fs[j].1@.len() && b == #[trigger] entry_task(
                fs,
                j,
                l,
                b.dialect,
            );
        assert(entry_task(fs, i, k, ShaderDialect::Gl).name == a.name);
        assert(entry_task(fs, j, l, ShaderDialect::Gl).name == b.name);
        assert(a.name != b.name || a.config != b.config);
        assert(variant_name_of(a.name, a.config) != variant_name_of(b.name, b.config));
        lemma_same_dialect_names(a, b);
    }
}

/// `a` comes from an entry of `fs` and one of its configurations.
pub open spec fn dialect_task_source(fs: Seq<(String, Vec<String>)>, a: VariantView) -> bool {
    exists|i: int, k: int|
        0 <= i < fs.len() && 0 <= k < fs[i].1@.len() && a == #[trigger] entry_task(
            fs,
            i,
            k,
            a.dialect,
        )
}

/// A task of the enumeration comes from an entry of its own dialect's list.
proof fn lemma_task_in_dialect(
    gl: Seq<(String, Vec<String>)>,
    gles: Seq<(String, Vec<String>)>,
    m: int,
)
    requires
        0 <= m < all_items(gl, gles).len(),
    ensures
        all_items(gl, gles)[m].dialect == ShaderDialect::Gl ==> dialect_task_source(
            gl,
            all_items(gl, gles)[m],
        ),
        all_items(gl, gles)[m].dialect == ShaderDialect::Gles ==> dialect_task_source(
            gles,
            all_items(gl, gles)[m],
        ),
{
    let g = dialect_items(ShaderDialect::Gl, gl);
    let h = dialect_items(ShaderDialect::Gles, gles);
    if m < g.len() {
        assert(all_items(gl, gles)[m] == g[m]);
        lemma_dialect_item_source(ShaderDialect::Gl, gl, m);
        lemma_dialect_item_dialect(ShaderDialect::Gl, gl, m);
    } else {
        assert(all_items(gl, gles)[m] == h[m - g.len()]);
        lemma_dialect_item_source(ShaderDialect::Gles, gles, m - g.len());
        lemma_dialect_item_dialect(ShaderDialect::Gles, gles, m - g.len());
    }
}

/// Each task for a dialect targets that dialect.
proof fn lemma_dialect_item_dialect(d: ShaderDialect, fs: Seq<(String, Vec<String>)>, n: int)
    requires
        0 <= n < dialect_items(d, fs).len(),
    ensures
        dialect_items(d, fs)[n].dialect == d,
{
    lemma_dialect_item_source(d, fs, n);
}

} // verus!
