use vstd::prelude::*;

use crate::material::{AmbientCGConfig, AmbientCGMaterial};
use crate::resolution::{tier_label, AmbientCGResolution};

verus! {

/// One of the six texture maps of a material set.
#[derive(Clone, Copy, Debug, PartialEq, Eq, Structural)]
pub enum TextureChannel {
    AmbientOcclusion,
    Color,
    Displacement,
    Metalness,
    NormalGL,
    Roughness,
}

/// The text that ends a channel file's stem.
pub open spec fn channel_suffix(c: TextureChannel) -> Seq<char> {
    match c {
        TextureChannel::AmbientOcclusion => "_AmbientOcclusion"@,
        TextureChannel::Color => "_Color"@,
        TextureChannel::Displacement => "_Displacement"@,
        TextureChannel::Metalness => "_Metalness"@,
        TextureChannel::NormalGL => "_NormalGL"@,
        TextureChannel::Roughness => "_Roughness"@,
    }
}

/// `<name>_<tier>-JPG`: the name of a set's directory and the start of its file names.
pub open spec fn material_stem(name: Seq<char>, t: AmbientCGResolution) -> Seq<char> {
    name + "_"@ + tier_label(t) + "-JPG"@
}

/// The materials path, followed by the subfolder when there is one.
pub open spec fn material_root(materials_path: Seq<char>, subfolder: Option<Seq<char>>) -> Seq<char> {
    match subfolder {
        None => materials_path,
        Some(sub) => materials_path + "/"@ + sub,
    }
}

/// The directory that holds a set's files.
pub open spec fn material_directory(
    materials_path: Seq<char>,
    subfolder: Option<Seq<char>>,
    name: Seq<char>,
    t: AmbientCGResolution,
) -> Seq<char> {
    material_root(materials_path, subfolder) + "/"@ + material_stem(name, t)
}

/// The file that holds one channel of a set.
pub open spec fn channel_file(
    materials_path: Seq<char>,
    subfolder: Option<Seq<char>>,
    name: Seq<char>,
    t: AmbientCGResolution,
    c: TextureChannel,
) -> Seq<char> {
    material_directory(materials_path, subfolder, name, t) + "/"@ + (material_stem(name, t)
        + channel_suffix(c) + ".jpg"@)
}

/// The subfolder of a material, as text.
pub open spec fn subfolder_view(m: AmbientCGMaterial) -> Option<Seq<char>> {
    match m.subfolder {
        None => None,
        Some(s) => Some(s@),
    }
}

/// The paths of the six channel files of a material set.
pub struct ChannelPaths {
    pub occlusion: String,
    pub base_color: String,
    pub displacement: String,
    pub metalness: String,
    pub normal: String,
    pub roughness: String,
}

impl TextureChannel {
    /// The text that ends this channel's file stem.
    pub fn suffix(&self) -> (r: &'static str)
        ensures
            r@ == channel_suffix(*self),
    {
        match self {
            TextureChannel::AmbientOcclusion => "_AmbientOcclusion",
            TextureChannel::Color => "_Color",
            TextureChannel::Displacement => "_Displacement",
            TextureChannel::Metalness => "_Metalness",
            TextureChannel::NormalGL => "_NormalGL",
            TextureChannel::Roughness => "_Roughness",
        }
    }
}

impl AmbientCGMaterial {
    /// `<name>_<tier>-JPG` for this material.
    pub fn stem(&self) -> (r: String)
        ensures
            r@ == material_stem(self.name@, self.resolution),
    {
        let mut s = self.name.clone();
        s.append("_");
        s.append(self.resolution.label());
        s.append("-JPG");
        s
    }

    /// The directory that material sets are looked up in: the materials path,
    /// then the subfolder if any.
    pub fn root(&self, config: &AmbientCGConfig) -> (r: String)
        ensures
            r@ == material_root(config.materials_path@, subfolder_view(*self)),
    {
        let mut s = config.materials_path.clone();
        match &self.subfolder {
            None => {},
            Some(sub) => {
                s.append("/");
                s.append(sub.as_str());
            },
        }
        s
    }

    /// The directory whose presence tells that this material exists at its tier.
    pub fn directory(&self, config: &AmbientCGConfig) -> (r: String)
        ensures
            r@ == material_directory(
                config.materials_path@,
                subfolder_view(*self),
                self.name@,
                self.resolution,
            ),
    {
        let mut s = self.root(config);
        let stem = self.stem();
        s.append("/");
        s.append(stem.as_str());
        s
    }

    /// The file of one channel of this material.
    pub fn channel_path(&self, config: &AmbientCGConfig, channel: TextureChannel) -> (r: String)
        ensures
            r@ == channel_file(
                config.materials_path@,
                subfolder_view(*self),
                self.name@,
                self.resolution,
                channel,
            ),
    {
        let mut s = self.directory(config);
        let stem = self.stem();
        s.append("/");
        s.append(stem.as_str());
        s.append(channel.suffix());
        s.append(".jpg");
        s
    }

    /// The files of all six channels of this material.
    pub fn channel_paths(&self, config: &AmbientCGConfig) -> (r: ChannelPaths)
        ensures
            r.occlusion@ == channel_file(
                config.materials_path@,
                subfolder_view(*self),
                self.name@,
                self.resolution,
                TextureChannel::AmbientOcclusion,
            ),
            r.base_color@ == channel_file(
                config.materials_path@,
                subfolder_view(*self),
                self.name@,
                self.resolution,
                TextureChannel::Color,
            ),
            r.displacement@ == channel_file(
                config.materials_path@,
                subfolder_view(*self),
                self.name@,
                self.resolution,
                TextureChannel::Displacement,
            ),
            r.metalness@ == channel_file(
                config.materials_path@,
                subfolder_view(*self),
                self.name@,
                self.resolution,
                TextureChannel::Metalness,
            ),
            r.normal@ == channel_file(
                config.materials_path@,
                subfolder_view(*self),
                self.name@,
                self.resolution,
                TextureChannel::NormalGL,
            ),
            r.roughness@ == channel_file(
                config.materials_path@,
                subfolder_view(*self),
                self.name@,
                self.resolution,
                TextureChannel::Roughness,
            ),
    {
        ChannelPaths {
            occlusion: self.channel_path(config, TextureChannel::AmbientOcclusion),
            base_color: self.channel_path(config, TextureChannel::Color),
            displacement: self.channel_path(config, TextureChannel::Displacement),
            metalness: self.channel_path(config, TextureChannel::Metalness),
            normal: self.channel_path(config, TextureChannel::NormalGL),
            roughness: self.channel_path(config, TextureChannel::Roughness),
        }
    }
}

/// Two texts that each end in a separator followed by a part free of it
/// are equal only when the parts before the separator and after it are.
proof fn lemma_split_at_last(a: Seq<char>, b: Seq<char>, c: Seq<char>, d: Seq<char>, sep: char)
    requires
        a + seq![sep] + b == c + seq![sep] + d,
        !b.contains(sep),
        !d.contains(sep),
    ensures
        a == c,
        b == d,
{
    let p = a + seq![sep] + b;
    let q = c + seq![sep] + d;
    if b.len() < d.len() {
        let i = p.len() - b.len() - 1;
        assert(p[i] == sep);
        assert(q[i] == d[i - c.len() - 1]);
        assert(d.contains(d[i - c.len() - 1]));
    } else if d.len() < b.len() {
        let i = q.len() - d.len() - 1;
        assert(q[i] == sep);
        assert(p[i] == b[i - a.len() - 1]);
        assert(b.contains(b[i - a.len() - 1]));
    }
    assert(p.len() == q.len());
    assert(a =~= p.subrange(0, a.len() as int));
    assert(c =~= q.subrange(0, c.len() as int));
    assert(b =~= p.subrange(a.len() + 1int, p.len() as int));
    assert(d =~= q.subrange(c.len() + 1int, q.len() as int));
}

/// Texts that end in the same part are equal only when what comes before is.
proof fn lemma_strip_suffix(a: Seq<char>, c: Seq<char>, x: Seq<char>)
    requires
        a + x == c + x,
    ensures
        a == c,
{
    assert((a + x).len() == (c + x).len());
    assert((a + x).len() == a.len() + x.len());
    assert((c + x).len() == c.len() + x.len());
    assert(a.len() == c.len());
    assert forall|i: int| 0 <= i < a.len() implies a[i] == c[i] by {
        assert((a + x)[i] == a[i]);
        assert((c + x)[i] == c[i]);
    }
    assert(a =~= c);
}

/// Texts that start with the same part are equal only when what follows is.
proof fn lemma_strip_prefix(x: Seq<char>, a: Seq<char>, c: Seq<char>)
    requires
        x + a == x + c,
    ensures
        a == c,
{
    assert(a =~= (x + a).subrange(x.len() as int, (x + a).len() as int));
    assert(c =~= (x + c).subrange(x.len() as int, (x + c).len() as int));
}

proof fn lemma_label_facts(t: AmbientCGResolution)
    ensures
        !tier_label(t).contains('_'),
        !tier_label(t).contains('/'),
{
    reveal_strlit("1K");
    reveal_strlit("2K");
    reveal_strlit("4K");
    reveal_strlit("8K");
    reveal_strlit("12K");
    reveal_strlit("16K");
}

proof fn lemma_label_injective(t1: AmbientCGResolution, t2: AmbientCGResolution)
    requires
        tier_label(t1) == tier_label(t2),
    ensures
        t1 == t2,
{
    reveal_strlit("1K");
    reveal_strlit("2K");
    reveal_strlit("4K");
    reveal_strlit("8K");
    reveal_strlit("12K");
    reveal_strlit("16K");
    assert(tier_label(AmbientCGResolution::OneK) =~= seq!['1', 'K']);
    assert(tier_label(AmbientCGResolution::TwoK) =~= seq!['2', 'K']);
    assert(tier_label(AmbientCGResolution::FourK) =~= seq!['4', 'K']);
    assert(tier_label(AmbientCGResolution::EightK) =~= seq!['8', 'K']);
    assert(tier_label(AmbientCGResolution::TwelveK) =~= seq!['1', '2', 'K']);
    assert(tier_label(AmbientCGResolution::SixteenK) =~= seq!['1', '6', 'K']);
    if t1 != t2 {
        assert(tier_label(t1).len() != tier_label(t2).len() || tier_label(t1)[0] != tier_label(t2)[0]
            || tier_label(t1)[1] != tier_label(t2)[1]);
    }
}

proof fn lemma_suffix_facts(c: TextureChannel)
    ensures
        !(channel_suffix(c) + ".jpg"@).contains('/'),
{
    reveal_strlit("_AmbientOcclusion");
    reveal_strlit("_Color");
    reveal_strlit("_Displacement");
    reveal_strlit("_Metalness");
    reveal_strlit("_NormalGL");
    reveal_strlit("_Roughness");
    reveal_strlit(".jpg");
    assert(forall|i: int|
        0 <= i < (channel_suffix(c) + ".jpg"@).len() ==> (channel_suffix(c) + ".jpg"@)[i] != '/');
}

proof fn lemma_suffix_injective(c1: TextureChannel, c2: TextureChannel)
    requires
        channel_suffix(c1) == channel_suffix(c2),
    ensures
        c1 == c2,
{
    reveal_strlit("_AmbientOcclusion");
    reveal_strlit("_Color");
    reveal_strlit("_Displacement");
    reveal_strlit("_Metalness");
    reveal_strlit("_NormalGL");
    reveal_strlit("_Roughness");
    assert(channel_suffix(TextureChannel::AmbientOcclusion).len() == 17);
    assert(channel_suffix(TextureChannel::Color).len() == 6);
    assert(channel_suffix(TextureChannel::Displacement).len() == 13);
    assert(channel_suffix(TextureChannel::Metalness).len() == 10);
    assert(channel_suffix(TextureChannel::NormalGL).len() == 9);
    assert(channel_suffix(TextureChannel::Roughness).len() == 10);
    assert(channel_suffix(TextureChannel::Metalness)[1] == 'M');
    assert(channel_suffix(TextureChannel::Roughness)[1] == 'R');
    if c1 != c2 {
        assert(channel_suffix(c1).len() != channel_suffix(c2).len() || channel_suffix(c1)[1]
            != channel_suffix(c2)[1]);
    }
}

/// A set's name and tier can be read back from its stem.
pub proof fn lemma_stem_injective(
    n1: Seq<char>,
    t1: AmbientCGResolution,
    n2: Seq<char>,
    t2: AmbientCGResolution,
)
    requires
        material_stem(n1, t1) == material_stem(n2, t2),
    ensures
        n1 == n2,
        t1 == t2,
{
    reveal_strlit("_");
    lemma_strip_suffix(n1 + "_"@ + tier_label(t1), n2 + "_"@ + tier_label(t2), "-JPG"@);
    lemma_label_facts(t1);
    lemma_label_facts(t2);
    assert("_"@ == seq!['_']);
    lemma_split_at_last(n1, tier_label(t1), n2, tier_label(t2), '_');
    lemma_label_injective(t1, t2);
}

proof fn lemma_stem_has_no_slash(n: Seq<char>, t: AmbientCGResolution)
    requires
        !n.contains('/'),
    ensures
        !material_stem(n, t).contains('/'),
{
    reveal_strlit("_");
    reveal_strlit("-JPG");
    lemma_label_facts(t);
    let s = material_stem(n, t);
    assert forall|i: int| 0 <= i < s.len() implies s[i] != '/' by {
        if i < n.len() {
            assert(n.contains(n[i]));
        } else if n.len() + 1 <= i < n.len() + 1 + tier_label(t).len() {
            assert(tier_label(t).contains(tier_label(t)[i - n.len() - 1]));
        }
    }
}

/// Channel file paths under one materials path never collide: distinct
/// (name, tier, subfolder, channel) tuples give distinct paths, for set names
/// that hold no path separator.
pub proof fn lemma_channel_file_injective(
    materials_path: Seq<char>,
    s1: Option<Seq<char>>,
    n1: Seq<char>,
    t1: AmbientCGResolution,
    c1: TextureChannel,
    s2: Option<Seq<char>>,
    n2: Seq<char>,
    t2: AmbientCGResolution,
    c2: TextureChannel,
)
    requires
        !n1.contains('/'),
        !n2.contains('/'),
        channel_file(materials_path, s1, n1, t1, c1) == channel_file(materials_path, s2, n2, t2, c2),
    ensures
        s1 == s2,
        n1 == n2,
        t1 == t2,
        c1 == c2,
{
    reveal_strlit("/");
    assert("/"@ == seq!['/']);
    let st1 = material_stem(n1, t1);
    let st2 = material_stem(n2, t2);
    let f1 = st1 + channel_suffix(c1) + ".jpg"@;
    let f2 = st2 + channel_suffix(c2) + ".jpg"@;
    lemma_stem_has_no_slash(n1, t1);
    lemma_stem_has_no_slash(n2, t2);
    lemma_suffix_facts(c1);
    lemma_suffix_facts(c2);
    assert(!f1.contains('/')) by {
        assert forall|i: int| 0 <= i < f1.len() implies f1[i] != '/' by {
            if i < st1.len() {
                assert(st1.contains(st1[i]));
            } else {
                assert(f1[i] == (channel_suffix(c1) + ".jpg"@)[i - st1.len()]);
                assert((channel_suffix(c1) + ".jpg"@).contains(f1[i]));
            }
        }
    }
    assert(!f2.contains('/')) by {
        assert forall|i: int| 0 <= i < f2.len() implies f2[i] != '/' by {
            if i < st2.len() {
                assert(st2.contains(st2[i]));
            } else {
                assert(f2[i] == (channel_suffix(c2) + ".jpg"@)[i - st2.len()]);
                assert((channel_suffix(c2) + ".jpg"@).contains(f2[i]));
            }
        }
    }
    let d1 = material_directory(materials_path, s1, n1, t1);
    let d2 = material_directory(materials_path, s2, n2, t2);
    lemma_split_at_last(d1, f1, d2, f2, '/');
    let r1 = material_root(materials_path, s1);
    let r2 = material_root(materials_path, s2);
    lemma_split_at_last(r1, st1, r2, st2, '/');
    lemma_stem_injective(n1, t1, n2, t2);
    assert(st1 + (channel_suffix(c1) + ".jpg"@) == st1 + (channel_suffix(c2) + ".jpg"@)) by {
        assert(f1 =~= st1 + (channel_suffix(c1) + ".jpg"@));
        assert(f2 =~= st1 + (channel_suffix(c2) + ".jpg"@));
    }
    lemma_strip_prefix(st1, channel_suffix(c1) + ".jpg"@, channel_suffix(c2) + ".jpg"@);
    lemma_strip_suffix(channel_suffix(c1), channel_suffix(c2), ".jpg"@);
    lemma_suffix_injective(c1, c2);
    match (s1, s2) {
        (None, None) => {},
        (Some(a), Some(b)) => {
            lemma_strip_prefix(materials_path + "/"@, a, b);
        },
        (Some(a), None) => {
            assert(r1.len() > r2.len());
        },
        (None, Some(b)) => {
            assert(r2.len() > r1.len());
        },
    }
}

} // verus!
