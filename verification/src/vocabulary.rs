//! Vocabulary composition: closed enumerations of named variants that a host
//! project can extend, with a fallible downcast from the extended vocabulary
//! back to the base one.

use vstd::prelude::*;

verus! {

/// One member of a vocabulary: a name, human documentation, and whether the
/// variant is the vocabulary's default.
#[derive(Clone, Debug)]
pub struct VariantDecl {
    pub name: String,
    pub doc: String,
    pub is_default: bool,
}

impl VariantDecl {
    /// An exact copy of the declaration.
    pub fn duplicate(&self) -> (r: VariantDecl)
        ensures
            r == *self,
    {
        VariantDecl { name: self.name.clone(), doc: self.doc.clone(), is_default: self.is_default }
    }
}

/// The names of a variant list, in order.
pub open spec fn variant_names(vs: Seq<VariantDecl>) -> Seq<Seq<char>> {
    vs.map_values(|v: VariantDecl| v.name@)
}

/// Whether the names of a variant list are pairwise distinct.
pub open spec fn distinct_names(vs: Seq<VariantDecl>) -> bool {
    forall|i: int, j: int| 0 <= i < j < vs.len() ==> vs[i].name@ != vs[j].name@
}

/// How many variants of a list are marked default.
pub open spec fn default_count(vs: Seq<VariantDecl>) -> nat
    decreases vs.len(),
{
    if vs.len() == 0 {
        0
    } else {
        default_count(vs.drop_last()) + if vs.last().is_default {
            1nat
        } else {
            0nat
        }
    }
}

/// The same declaration with the default mark removed.
pub open spec fn clear_default(v: VariantDecl) -> VariantDecl {
    VariantDecl { name: v.name, doc: v.doc, is_default: false }
}

/// A closed, named enumeration of variants.
#[derive(Clone, Debug)]
pub struct Vocabulary {
    pub variants: Vec<VariantDecl>,
}

impl Vocabulary {
    /// Well-formedness: names are unique and at most one variant is default.
    pub open spec fn wf(self) -> bool {
        distinct_names(self.variants@) && default_count(self.variants@) <= 1
    }
}

/// Whether the host variant at position `i` collides with a base name or
/// with an earlier host name.
pub open spec fn collides_at(base_names: Seq<Seq<char>>, host: Seq<VariantDecl>, i: int) -> bool {
    base_names.contains(host[i].name@) || exists|j: int|
        0 <= j < i && host[j].name@ == host[i].name@
}

/// Whether any host variant collides.
pub open spec fn has_collision(base_names: Seq<Seq<char>>, host: Seq<VariantDecl>) -> bool {
    exists|i: int| 0 <= i < host.len() && collides_at(base_names, host, i)
}

/// When composition succeeds: no name collision, and the host declares at
/// most one default (one explicit override of the base default is allowed,
/// a second is not).
pub open spec fn compose_ok(base_names: Seq<Seq<char>>, host: Seq<VariantDecl>) -> bool {
    !has_collision(base_names, host) && default_count(host) <= 1
}

/// The variant list of the merged vocabulary: the base variants in their
/// declared order — with their default mark cleared when the host explicitly
/// overrides the default — followed by the host variants.
pub open spec fn merged_variants(base: Seq<VariantDecl>, host: Seq<VariantDecl>) -> Seq<
    VariantDecl,
> {
    (if default_count(host) > 0 {
        base.map_values(|v: VariantDecl| clear_default(v))
    } else {
        base
    }) + host
}

/// Why a composition was rejected.
#[derive(Clone, Debug)]
pub enum CompositionError {
    /// A declared variant name collides with a base name or repeats an
    /// earlier declaration.
    NameCollision { name: String },
    /// More than one variant of one declaration is marked default.
    MultipleDefaults,
    /// A selected name is not one of the base vocabulary's names; the valid
    /// names are carried for the error message.
    UnknownCommand { name: String, valid: Vec<String> },
}

impl CompositionError {
    /// The user-visible description of the error.  An unknown name
    /// enumerates every valid name, to guide the caller.
    pub fn message(&self) -> (r: String)
        ensures
            (match self {
                CompositionError::NameCollision { name } => r@ == "Duplicate variant name: "@
                    + name@,
                CompositionError::MultipleDefaults => r@
                    == "At most one variant can be marked as the default."@,
                CompositionError::UnknownCommand { name, valid } => r@ == "Unknown command: "@
                    + name@ + "\nPossible commands are:\n  "@ + crate::text::joined(
                    crate::filter::name_views(valid@),
                    "\n  "@,
                ),
            }),
    {
        match self {
            CompositionError::NameCollision { name } => {
                let mut out = String::from_str("Duplicate variant name: ");
                out.append(name.as_str());
                out
            },
            CompositionError::MultipleDefaults => {
                String::from_str("At most one variant can be marked as the default.")
            },
            CompositionError::UnknownCommand { name, valid } => {
                let mut out = String::from_str("Unknown command: ");
                out.append(name.as_str());
                out.append("\nPossible commands are:\n  ");
                let listing = crate::text::join_with(valid, "\n  ");
                out.append(listing.as_str());
                out
            },
        }
    }
}

/// Downcast failure: the value is a host-only variant, carried here under
/// its lower-case display name.
#[derive(Clone, Debug)]
pub struct DowncastError {
    pub variant: String,
}

impl DowncastError {
    /// The user-visible description of the failure.
    pub fn message(&self) -> (r: String)
        ensures
            r@ == self.variant@ + " target is not supported."@,
    {
        let mut out = self.variant.clone();
        out.append(" target is not supported.");
        out
    }
}

/// A vocabulary built as the union of a base vocabulary and host-declared
/// extra variants.  Values of the vocabulary are positions into the variant
/// list; the first `base_count` positions are the base-originated values.
#[derive(Clone, Debug)]
pub struct ExtendedVocabulary {
    pub vocabulary: Vocabulary,
    pub base_count: usize,
}

impl ExtendedVocabulary {
    /// Well-formedness: the merged vocabulary is well formed and the base
    /// prefix lies within it.
    pub open spec fn wf(self) -> bool {
        self.vocabulary.wf() && self.base_count <= self.vocabulary.variants@.len()
    }

    /// Whether a value of the extended vocabulary originates from the base.
    pub open spec fn is_base_value(self, v: int) -> bool {
        0 <= v < self.base_count
    }

    /// What downcasting a value yields: the identical base value for a
    /// base-originated value, nothing for a host-only one.
    pub open spec fn downcast_spec(self, v: int) -> Option<int> {
        if self.is_base_value(v) {
            Option::Some(v)
        } else {
            Option::None
        }
    }

    /// Converts a value of the extended vocabulary back to the base
    /// vocabulary.  The conversion is the identity on base-originated values
    /// and fails on host-only values, carrying the variant's display name.
    pub fn downcast(&self, v: usize) -> (r: Result<usize, DowncastError>)
        requires
            v < self.vocabulary.variants@.len(),
        ensures
            self.downcast_spec(v as int) == Option::Some(v as int) ==> r == Result::<
                usize,
                DowncastError,
            >::Ok(v),
            self.downcast_spec(v as int) is None ==> (r matches Result::Err(e) && e.variant@
                == crate::text::lower_chars(self.vocabulary.variants@[v as int].name@)),
    {
        if v < self.base_count {
            Result::Ok(v)
        } else {
            let display = crate::text::to_lowercase(self.vocabulary.variants[v].name.as_str());
            Result::Err(DowncastError { variant: display })
        }
    }
}

/// Whether `name` occurs among the first `upto` variants of `vs`.
pub(crate) fn variants_contain(vs: &Vec<VariantDecl>, upto: usize, name: &String) -> (r: bool)
    requires
        upto <= vs@.len(),
    ensures
        r == exists|j: int| 0 <= j < upto && vs@[j].name@ == name@,
{
    let mut i: usize = 0;
    while i < upto
        invariant
            i <= upto <= vs@.len(),
            forall|j: int| 0 <= j < i ==> vs@[j].name@ != name@,
        decreases upto - i,
    {
        if vs[i].name.eq(name) {
            return true;
        }
        i += 1;
    }
    false
}

/// Step lemma for counting defaults front to back.
pub proof fn lemma_default_count_take_step(vs: Seq<VariantDecl>, i: int)
    requires
        0 <= i < vs.len(),
    ensures
        default_count(vs.take(i + 1)) == default_count(vs.take(i)) + if vs[i].is_default {
            1nat
        } else {
            0nat
        },
{
    assert(vs.take(i + 1).drop_last() =~= vs.take(i));
    assert(vs.take(i + 1).last() == vs[i]);
}

/// The default count distributes over concatenation.
pub proof fn lemma_default_count_add(a: Seq<VariantDecl>, b: Seq<VariantDecl>)
    ensures
        default_count(a + b) == default_count(a) + default_count(b),
    decreases b.len(),
{
    if b.len() == 0 {
        assert(a + b =~= a);
    } else {
        lemma_default_count_add(a, b.drop_last());
        assert((a + b).drop_last() =~= a + b.drop_last());
        assert((a + b).last() == b.last());
    }
}

/// A list none of whose variants is marked default counts zero defaults.
pub proof fn lemma_default_count_none(vs: Seq<VariantDecl>)
    requires
        forall|i: int| 0 <= i < vs.len() ==> !vs[i].is_default,
    ensures
        default_count(vs) == 0,
    decreases vs.len(),
{
    if vs.len() > 0 {
        lemma_default_count_none(vs.drop_last());
    }
}

impl Vocabulary {
    /// Composes this base vocabulary with host-declared extra variants.
    ///
    /// On success the merged vocabulary preserves the base ordering, appends
    /// the host variants, keeps the base default unless exactly one host
    /// variant overrides it, and records how many leading variants are
    /// base-originated.  Composition fails on the first host name that
    /// collides with a base name or an earlier host name, and on more than
    /// one host default.
    pub fn compose(&self, host: &Vec<VariantDecl>) -> (r: Result<
        ExtendedVocabulary,
        CompositionError,
    >)
        requires
            self.wf(),
        ensures
            r is Ok <==> compose_ok(variant_names(self.variants@), host@),
            r matches Ok(e) ==> e.vocabulary.variants@ == merged_variants(self.variants@, host@)
                && e.base_count == self.variants@.len() && e.wf(),
            r matches Err(e) ==> (match e {
                CompositionError::NameCollision { name } => exists|i: int|
                    0 <= i < host@.len() && #[trigger] collides_at(variant_names(self.variants@), host@, i)
                        && name@ == host@[i].name@ && (forall|j: int|
                        0 <= j < i ==> !collides_at(variant_names(self.variants@), host@, j)),
                CompositionError::MultipleDefaults => !has_collision(variant_names(self.variants@), host@)
                    && default_count(host@) >= 2,
                _ => false,
            }),
    {
        let ghost base = self.variants@;
        // Reject the first colliding host name.
        let mut i: usize = 0;
        while i < host.len()
            invariant
                i <= host@.len(),
                base == self.variants@,
                forall|j: int| 0 <= j < i ==> !collides_at(variant_names(base), host@, j),
            decreases host@.len() - i,
        {
            let name = &host[i].name;
            let in_base = variants_contain(&self.variants, self.variants.len(), name);
            let in_earlier = variants_contain(host, i, name);
            if in_base || in_earlier {
                proof {
                    if in_base {
                        assert(variant_names(base)[choose|j: int|
                            0 <= j < base.len() && base[j].name@ == name@] == name@);
                    }
                    assert(collides_at(variant_names(base), host@, i as int));
                }
                return Result::Err(CompositionError::NameCollision { name: name.clone() });
            }
            proof {
                if variant_names(base).contains(name@) {
                    let j = choose|j: int| 0 <= j < variant_names(base).len() && variant_names(
                        base,
                    )[j] == name@;
                    assert(base[j].name@ == name@);
                }
            }
            i += 1;
        }
        // Count the host defaults.
        let mut defaults: usize = 0;
        let mut k: usize = 0;
        while k < host.len()
            invariant
                k <= host@.len(),
                defaults <= k,
                defaults == default_count(host@.take(k as int)),
            decreases host@.len() - k,
        {
            proof {
                lemma_default_count_take_step(host@, k as int);
            }
            if host[k].is_default {
                defaults += 1;
            }
            k += 1;
        }
        proof {
            assert(host@.take(host@.len() as int) =~= host@);
        }
        if defaults >= 2 {
            return Result::Err(CompositionError::MultipleDefaults);
        }
        let override_default = defaults > 0;
        // Base variants first, cleared of their default mark on override.
        let mut variants: Vec<VariantDecl> = Vec::new();
        let mut b: usize = 0;
        while b < self.variants.len()
            invariant
                b <= base.len(),
                base == self.variants@,
                override_default == (default_count(host@) > 0),
                variants@.len() == b,
                forall|j: int|
                    0 <= j < b ==> variants@[j] == (if default_count(host@) > 0 {
                        clear_default(base[j])
                    } else {
                        base[j]
                    }),
            decreases base.len() - b,
        {
            let v = &self.variants[b];
            if override_default {
                variants.push(
                    VariantDecl { name: v.name.clone(), doc: v.doc.clone(), is_default: false },
                );
            } else {
                variants.push(v.duplicate());
            }
            b += 1;
        }
        // Host variants after.
        let mut h: usize = 0;
        while h < host.len()
            invariant
                h <= host@.len(),
                base == self.variants@,
                override_default == (default_count(host@) > 0),
                variants@.len() == base.len() + h,
                forall|j: int|
                    0 <= j < base.len() ==> variants@[j] == (if default_count(host@) > 0 {
                        clear_default(base[j])
                    } else {
                        base[j]
                    }),
                forall|j: int| 0 <= j < h ==> variants@[base.len() + j] == host@[j],
            decreases host@.len() - h,
        {
            variants.push(host[h].duplicate());
            h += 1;
        }
        proof {
            assert(variants@ =~= merged_variants(base, host@));
            lemma_merged_wf(base, host@);
        }
        Result::Ok(
            ExtendedVocabulary {
                base_count: self.variants.len(),
                vocabulary: Vocabulary { variants },
            },
        )
    }
}

/// A successful composition yields a well-formed vocabulary.
proof fn lemma_merged_wf(base: Seq<VariantDecl>, host: Seq<VariantDecl>)
    requires
        distinct_names(base),
        default_count(base) <= 1,
        compose_ok(variant_names(base), host),
    ensures
        distinct_names(merged_variants(base, host)),
        default_count(merged_variants(base, host)) <= 1,
{
    let front = if default_count(host) > 0 {
        base.map_values(|v: VariantDecl| clear_default(v))
    } else {
        base
    };
    let m = merged_variants(base, host);
    assert forall|i: int, j: int| 0 <= i < j < m.len() implies m[i].name@ != m[j].name@ by {
        if j >= base.len() {
            assert(!collides_at(variant_names(base), host, j - base.len()));
            if i >= base.len() {
                assert(host[i - base.len()].name@ == m[i].name@);
            } else {
                assert(m[i].name@ == base[i].name@);
                if base[i].name@ == host[j - base.len()].name@ {
                    assert(variant_names(base)[i] == base[i].name@);
                    assert(variant_names(base).contains(host[j - base.len()].name@));
                }
            }
        } else {
            assert(m[i].name@ == base[i].name@ && m[j].name@ == base[j].name@);
        }
    }
    lemma_default_count_add(front, host);
    if default_count(host) > 0 {
        assert forall|i: int| 0 <= i < front.len() implies !front[i].is_default by {
            assert(front[i] == clear_default(base[i]));
        }
        lemma_default_count_none(front);
    }
}

/// A list whose only default mark stands at position `k` counts one default.
pub proof fn lemma_default_count_one(vs: Seq<VariantDecl>, k: int)
    requires
        0 <= k < vs.len(),
        vs[k].is_default,
        forall|i: int| 0 <= i < vs.len() && i != k ==> !vs[i].is_default,
    ensures
        default_count(vs) == 1,
    decreases vs.len(),
{
    if k == vs.len() - 1 {
        lemma_default_count_none(vs.drop_last());
    } else {
        lemma_default_count_one(vs.drop_last(), k);
    }
}

/// Law: for every base vocabulary and host extension list with no name
/// collisions, the merged vocabulary keeps each base variant in its place,
/// and downcasting a base-originated value yields the original value — the
/// round trip through the extended vocabulary is the identity.
pub proof fn lemma_downcast_roundtrip(
    base: Vocabulary,
    host: Seq<VariantDecl>,
    e: ExtendedVocabulary,
    i: int,
)
    requires
        compose_ok(variant_names(base.variants@), host),
        e.vocabulary.variants@ == merged_variants(base.variants@, host),
        e.base_count == base.variants@.len(),
        0 <= i < base.variants@.len(),
    ensures
        e.downcast_spec(i) == Option::Some(i),
        e.vocabulary.variants@[i].name@ == base.variants@[i].name@,
        e.vocabulary.variants@[i].doc@ == base.variants@[i].doc@,
{
    if default_count(host) > 0 {
        assert(e.vocabulary.variants@[i] == clear_default(base.variants@[i]));
    } else {
        assert(e.vocabulary.variants@[i] == base.variants@[i]);
    }
}

/// Law: every vocabulary carries at most one default variant, and composing
/// never introduces a second default — the base default is kept, or replaced
/// by the single explicit override.
pub proof fn lemma_compose_single_default(base: Seq<VariantDecl>, host: Seq<VariantDecl>)
    requires
        default_count(base) <= 1,
        distinct_names(base),
        compose_ok(variant_names(base), host),
    ensures
        default_count(merged_variants(base, host)) <= 1,
{
    lemma_merged_wf(base, host);
}

} // verus!
