//! Registry of types that generated bindings take from other crates
//! instead of generating them, with the traits each of them implements.
use vstd::prelude::*;

use crate::text::push_str;

verus! {

/// The derivable traits that bindgen asks about.
#[derive(PartialEq, Eq, Structural, Clone, Copy, Debug)]
pub enum DeriveTrait {
    Copy,
    Debug,
    Default,
    Hash,
    PartialEqOrPartialOrd,
}

/// Efficient encoding for bindgen type information: one bit per trait.
#[derive(PartialEq, Eq, Structural, Clone, Copy, Debug)]
pub struct TypeFlags(pub u8);

pub const TYPE_FLAG_COPY: u8 = 1;
pub const TYPE_FLAG_DEBUG: u8 = 2;
pub const TYPE_FLAG_DEFAULT: u8 = 4;
pub const TYPE_FLAG_HASH: u8 = 8;
pub const TYPE_FLAG_PARTIAL_ORD_OR_PARTIAL_EQ: u8 = 16;

/// The bit that stands for trait `t`.
pub open spec fn derive_bit(t: DeriveTrait) -> u8 {
    match t {
        DeriveTrait::Copy => TYPE_FLAG_COPY,
        DeriveTrait::Debug => TYPE_FLAG_DEBUG,
        DeriveTrait::Default => TYPE_FLAG_DEFAULT,
        DeriveTrait::Hash => TYPE_FLAG_HASH,
        DeriveTrait::PartialEqOrPartialOrd => TYPE_FLAG_PARTIAL_ORD_OR_PARTIAL_EQ,
    }
}

impl TypeFlags {
    /// Whether every bit of `other` is set in `self`.
    pub fn contains(&self, other: TypeFlags) -> (r: bool)
        ensures
            r == (self.0 & other.0 == other.0),
    {
        self.0 & other.0 == other.0
    }

    /// The flags of both.
    pub fn union(self, other: TypeFlags) -> (r: TypeFlags)
        ensures
            r.0 == self.0 | other.0,
    {
        TypeFlags(self.0 | other.0)
    }

    /// Whether the type is recorded as implementing `t`.
    pub fn implements(&self, t: DeriveTrait) -> (r: bool)
        ensures
            r == (self.0 & derive_bit(t) == derive_bit(t)),
    {
        let bit = match t {
            DeriveTrait::Copy => TYPE_FLAG_COPY,
            DeriveTrait::Debug => TYPE_FLAG_DEBUG,
            DeriveTrait::Default => TYPE_FLAG_DEFAULT,
            DeriveTrait::Hash => TYPE_FLAG_HASH,
            DeriveTrait::PartialEqOrPartialOrd => TYPE_FLAG_PARTIAL_ORD_OR_PARTIAL_EQ,
        };
        self.contains(TypeFlags(bit))
    }
}

/// `parts` joined with `sep` between each two.
pub open spec fn join(parts: Seq<Seq<char>>, sep: Seq<char>) -> Seq<char>
    decreases parts.len(),
{
    if parts.len() == 0 {
        Seq::empty()
    } else if parts.len() == 1 {
        parts[0]
    } else {
        join(parts.drop_last(), sep) + sep + parts.last()
    }
}

proof fn lemma_join_push(parts: Seq<Seq<char>>, x: Seq<char>, sep: Seq<char>)
    ensures
        join(parts.push(x), sep) == if parts.len() == 0 {
            x
        } else {
            join(parts, sep) + sep + x
        },
{
    assert(parts.push(x).drop_last() =~= parts);
}

/// Appends `x` to `out`, which holds `parts` joined with `sep`.
fn append_part(out: &mut String, parts: Ghost<Seq<Seq<char>>>, first: bool, x: &str, sep: &str)
    requires
        old(out)@ == join(parts@, sep@),
        first == (parts@.len() == 0),
    ensures
        final(out)@ == join(parts@.push(x@), sep@),
{
    proof {
        lemma_join_push(parts@, x@, sep@);
    }
    if !first {
        push_str(out, sep);
    } else {
        assert(old(out)@ =~= Seq::<char>::empty());
    }
    push_str(out, x);
    assert(final(out)@ =~= join(parts@.push(x@), sep@));
}

/// A table of type names and flags, as views: names are unique.
pub open spec fn names_unique(t: Seq<(Seq<char>, TypeFlags)>) -> bool {
    forall|i: int, j: int| 0 <= i < j < t.len() ==> #[trigger] t[i].0 != #[trigger] t[j].0
}

/// The names of a table, in order.
pub open spec fn names(t: Seq<(Seq<char>, TypeFlags)>) -> Seq<Seq<char>> {
    t.map_values(|p: (Seq<char>, TypeFlags)| p.0)
}

/// The table after recording `name` with `flags`: an entry with that name
/// gets the new flags in place, otherwise the entry is added at the end.
pub open spec fn table_insert(t: Seq<(Seq<char>, TypeFlags)>, name: Seq<char>, flags: TypeFlags) -> Seq<(Seq<char>, TypeFlags)> {
    if exists|i: int| 0 <= i < t.len() && #[trigger] t[i].0 == name {
        let i = choose|i: int| 0 <= i < t.len() && #[trigger] t[i].0 == name;
        t.update(i, (name, flags))
    } else {
        t.push((name, flags))
    }
}

/// The table after recording each entry of `items` in order.
pub open spec fn table_insert_all(t: Seq<(Seq<char>, TypeFlags)>, items: Seq<(Seq<char>, TypeFlags)>) -> Seq<(Seq<char>, TypeFlags)>
    decreases items.len(),
{
    if items.len() == 0 {
        t
    } else {
        table_insert(table_insert_all(t, items.drop_last()), items.last().0, items.last().1)
    }
}

/// The view of a list of owned names and flags.
pub open spec fn entries_view(v: Seq<(String, TypeFlags)>) -> Seq<(Seq<char>, TypeFlags)> {
    v.map_values(|p: (String, TypeFlags)| (p.0@, p.1))
}

/// The import line that makes a crate's types visible to the generated bindings.
pub open spec fn uses_text(name: Seq<char>, type_names: Seq<Seq<char>>) -> Seq<char> {
    "\n#[allow(unused_imports)]\npub use "@ + name + "::{"@ + join(type_names, ","@) + "};\n"@
}

/// A crate that provides some of the types, with their flags.
pub struct Crate {
    name: String,
    types: Vec<(String, TypeFlags)>,
}

impl Crate {
    pub closed spec fn spec_name(&self) -> Seq<char> {
        self.name@
    }

    /// The crate's types, as (name, flags), in the order first recorded.
    pub closed spec fn spec_types(&self) -> Seq<(Seq<char>, TypeFlags)> {
        entries_view(self.types@)
    }

    pub open spec fn wf(&self) -> bool {
        names_unique(self.spec_types())
    }

    /// Records `name` with `flags`, replacing the flags of an entry of the same name.
    fn insert(&mut self, name: String, flags: TypeFlags)
        requires
            old(self).wf(),
        ensures
            final(self).wf(),
            final(self).spec_name() == old(self).spec_name(),
            final(self).spec_types() == table_insert(old(self).spec_types(), name@, flags),
    {
        let ghost t = self.spec_types();
        let ghost key = name@;
        let n = self.types.len();
        let mut i: usize = 0;
        while i < n
            invariant
                n == self.types@.len(),
                key == name@,
                t == old(self).spec_types(),
                0 <= i <= n,
                self.spec_types() == t,
                self.name@ == old(self).name@,
                names_unique(t),
                forall|j: int| 0 <= j < i ==> #[trigger] t[j].0 != name@,
            decreases n - i,
        {
            if self.types[i].0 == name {
                proof {
                    assert(t[i as int].0 == name@);
                    let k = choose|k: int| 0 <= k < t.len() && #[trigger] t[k].0 == name@;
                    assert(k == i as int);
                }
                let ghost before = self.types@;
                self.types.set(i, (name, flags));
                proof {
                    assert(self.spec_types() =~= t.update(i as int, (key, flags)));
                    assert(table_insert(t, key, flags) == t.update(i as int, (key, flags)));
                    assert forall|a: int, b: int| 0 <= a < b < self.spec_types().len() implies
                        #[trigger] self.spec_types()[a].0 != #[trigger] self.spec_types()[b].0 by {
                        assert(t[a].0 != t[b].0);
                    }
                }
                return;
            }
            i = i + 1;
        }
        self.types.push((name, flags));
        proof {
            assert(!(exists|k: int| 0 <= k < t.len() && #[trigger] t[k].0 == key));
            assert(self.spec_types() =~= t.push((key, flags)));
            assert(table_insert(t, key, flags) == t.push((key, flags)));
            assert forall|a: int, b: int| 0 <= a < b < self.spec_types().len() implies
                #[trigger] self.spec_types()[a].0 != #[trigger] self.spec_types()[b].0 by {
                if b < t.len() {
                    assert(t[a].0 != t[b].0);
                } else {
                    assert(t[a].0 != key);
                }
            }
        }
    }

    /// Records each of `types` in order.
    fn extend(&mut self, types: &Vec<(String, TypeFlags)>)
        requires
            old(self).wf(),
        ensures
            final(self).wf(),
            final(self).spec_name() == old(self).spec_name(),
            final(self).spec_types() == table_insert_all(old(self).spec_types(), entries_view(types@)),
    {
        let ghost t0 = self.spec_types();
        let mut i: usize = 0;
        while i < types.len()
            invariant
                0 <= i <= types@.len(),
                self.wf(),
                self.spec_name() == old(self).spec_name(),
                self.spec_types() == table_insert_all(t0, entries_view(types@).take(i as int)),
            decreases types@.len() - i,
        {
            let name = types[i].0.clone();
            let flags = types[i].1;
            self.insert(name, flags);
            proof {
                let items = entries_view(types@).take(i + 1);
                assert(items.drop_last() =~= entries_view(types@).take(i as int));
                assert(items.last() == (types@[i as int].0@, flags));
            }
            i = i + 1;
        }
        assert(entries_view(types@).take(types@.len() as int) =~= entries_view(types@));
    }

    /// A crate named `name` providing `types`; a later entry for a name
    /// replaces the flags of an earlier one.
    pub fn new(name: &str, types: &Vec<(String, TypeFlags)>) -> (r: Self)
        ensures
            r.wf(),
            r.spec_name() == name@,
            r.spec_types() == table_insert_all(Seq::empty(), entries_view(types@)),
    {
        let mut c = Crate { name: name.to_owned(), types: Vec::new() };
        proof {
            assert(c.spec_types() =~= Seq::empty());
        }
        c.extend(types);
        c
    }

    /// The crate's name.
    pub fn name(&self) -> (r: &str)
        ensures
            r@ == self.spec_name(),
    {
        self.name.as_str()
    }

    /// The names of the crate's types, in the order first recorded.
    pub fn type_names(&self) -> (r: Vec<String>)
        ensures
            r@.map_values(|s: String| s@) == names(self.spec_types()),
    {
        let mut out: Vec<String> = Vec::new();
        let mut i: usize = 0;
        while i < self.types.len()
            invariant
                0 <= i <= self.types@.len(),
                out@.map_values(|s: String| s@) == names(self.spec_types()).take(i as int),
            decreases self.types@.len() - i,
        {
            let ghost before = out@;
            let name = self.types[i].0.clone();
            out.push(name);
            proof {
                assert(out@ == before.push(name));
                assert(name@ == self.spec_types()[i as int].0);
                assert(out@.map_values(|s: String| s@) =~= before.map_values(|s: String| s@).push(name@));
                assert(names(self.spec_types()).take(i + 1) =~= names(self.spec_types()).take(i as int).push(name@));
            }
            i = i + 1;
        }
        assert(names(self.spec_types()).take(i as int) =~= names(self.spec_types()));
        out
    }

    /// The flags recorded for `name`, if the crate provides that type.
    pub fn flags_of(&self, name: &str) -> (r: Option<TypeFlags>)
        requires
            self.wf(),
        ensures
            r.is_none() == !(exists|i: int| 0 <= i < self.spec_types().len() && #[trigger] self.spec_types()[i].0 == name@),
            r matches Some(f) ==> exists|i: int| 0 <= i < self.spec_types().len() && #[trigger] self.spec_types()[i] == (name@, f),
    {
        let key = name.to_owned();
        let mut i: usize = 0;
        while i < self.types.len()
            invariant
                0 <= i <= self.types@.len(),
                key@ == name@,
                forall|j: int| 0 <= j < i ==> #[trigger] self.spec_types()[j].0 != name@,
            decreases self.types@.len() - i,
        {
            if self.types[i].0 == key {
                proof {
                    assert(self.spec_types()[i as int].0 == name@);
                    assert(self.spec_types()[i as int] == (name@, self.types@[i as int].1));
                }
                return Some(self.types[i].1);
            }
            i = i + 1;
        }
        None
    }

    /// The import line for the crate's types; `None` when it provides none.
    pub fn uses(&self) -> (r: Option<String>)
        ensures
            self.spec_types().len() == 0 ==> r.is_none(),
            self.spec_types().len() > 0 ==> (r matches Some(s) && s@ == uses_text(self.spec_name(), names(self.spec_types()))),
    {
        if self.types.len() == 0 {
            return None;
        }
        let mut list = String::new();
        let ghost parts: Seq<Seq<char>> = Seq::empty();
        proof {
            assert(list@ =~= join(parts, ","@));
        }
        let mut i: usize = 0;
        while i < self.types.len()
            invariant
                0 <= i <= self.types@.len(),
                parts == names(self.spec_types()).take(i as int),
                list@ == join(parts, ","@),
            decreases self.types@.len() - i,
        {
            append_part(&mut list, Ghost(parts), i == 0, self.types[i].0.as_str(), ",");
            proof {
                parts = parts.push(self.types@[i as int].0@);
                assert(parts =~= names(self.spec_types()).take(i + 1));
            }
            i = i + 1;
        }
        assert(parts =~= names(self.spec_types()));
        let mut s = String::new();
        push_str(&mut s, "\n#[allow(unused_imports)]\npub use ");
        push_str(&mut s, self.name.as_str());
        push_str(&mut s, "::{");
        push_str(&mut s, list.as_str());
        push_str(&mut s, "};\n");
        proof {
            assert(s@ =~= uses_text(self.spec_name(), names(self.spec_types())));
        }
        Some(s)
    }
}

/// A crate of the registry, as a view: its name and its table of types.
pub type CrateView = (Seq<char>, Seq<(Seq<char>, TypeFlags)>);

/// Whether crate `c` provides a type named `name`.
pub open spec fn provides(c: CrateView, name: Seq<char>) -> bool {
    exists|j: int| 0 <= j < c.1.len() && #[trigger] c.1[j].0 == name
}

/// Whether crate `c` records type `name` with flags `f`.
pub open spec fn records(c: CrateView, name: Seq<char>, f: TypeFlags) -> bool {
    exists|j: int| 0 <= j < c.1.len() && #[trigger] c.1[j] == (name, f)
}

/// The registry after recording `items` as types of crate `source`: added
/// to the crate of that name, or to a new crate at the end.
pub open spec fn add_spec(cs: Seq<CrateView>, source: Seq<char>, items: Seq<(Seq<char>, TypeFlags)>) -> Seq<CrateView> {
    if exists|i: int| 0 <= i < cs.len() && #[trigger] cs[i].0 == source {
        let i = choose|i: int| 0 <= i < cs.len() && #[trigger] cs[i].0 == source;
        cs.update(i, (source, table_insert_all(cs[i].1, items)))
    } else {
        cs.push((source, table_insert_all(Seq::empty(), items)))
    }
}

/// The names of all types of all crates, crate by crate.
pub open spec fn flat_names(cs: Seq<CrateView>) -> Seq<Seq<char>>
    decreases cs.len(),
{
    if cs.len() == 0 {
        Seq::empty()
    } else {
        flat_names(cs.drop_last()) + names(cs.last().1)
    }
}

/// The import lines of all crates that provide at least one type.
pub open spec fn all_uses(cs: Seq<CrateView>) -> Seq<Seq<char>>
    decreases cs.len(),
{
    if cs.len() == 0 {
        Seq::empty()
    } else if cs.last().1.len() > 0 {
        all_uses(cs.drop_last()).push(uses_text(cs.last().0, names(cs.last().1)))
    } else {
        all_uses(cs.drop_last())
    }
}

/// The type name in the way bindgen spells a blocklisted type, split into
/// words: `const struct N`, `const N`, `struct N` or `N`.
pub open spec fn blocklisted_type_name(parts: Seq<Seq<char>>) -> Option<Seq<char>> {
    if parts.len() == 3 && parts[0] == "const"@ && parts[1] == "struct"@ {
        Some(parts[2])
    } else if parts.len() == 2 && (parts[0] == "const"@ || parts[0] == "struct"@) {
        Some(parts[1])
    } else if parts.len() == 1 {
        Some(parts[0])
    } else {
        None
    }
}

/// Types that the generated bindings take from other crates.
pub struct NgxBindgenCallbacks(Vec<Crate>);

impl NgxBindgenCallbacks {
    pub closed spec fn spec_crates(&self) -> Seq<CrateView> {
        self.0@.map_values(|c: Crate| (c.spec_name(), c.spec_types()))
    }

    /// Every crate's table is well formed and no two crates share a name.
    pub closed spec fn wf(&self) -> bool {
        &&& forall|i: int| 0 <= i < self.0@.len() ==> (#[trigger] self.0@[i]).wf()
        &&& forall|i: int, j: int| 0 <= i < j < self.0@.len() ==> #[trigger] self.0@[i].spec_name() != #[trigger] self.0@[j].spec_name()
    }

    proof fn lemma_view_at(&self, i: int)
        requires
            0 <= i < self.0@.len(),
        ensures
            self.spec_crates().len() == self.0@.len(),
            self.spec_crates()[i] == (self.0@[i].spec_name(), self.0@[i].spec_types()),
    {
    }

    /// An empty registry.
    pub fn new() -> (r: Self)
        ensures
            r.wf(),
            r.spec_crates() == Seq::<CrateView>::empty(),
    {
        let r = NgxBindgenCallbacks(Vec::new());
        assert(r.spec_crates() =~= Seq::<CrateView>::empty());
        r
    }

    /// Records `types` as provided by crate `source`.
    pub fn add_external_types(&mut self, source: &str, types: &Vec<(String, TypeFlags)>)
        requires
            old(self).wf(),
        ensures
            final(self).wf(),
            final(self).spec_crates() == add_spec(old(self).spec_crates(), source@, entries_view(types@)),
    {
        let ghost cs = self.spec_crates();
        let src = source.to_owned();
        let n = self.0.len();
        let mut i: usize = 0;
        while i < n
            invariant
                n == self.0@.len(),
                0 <= i <= n,
                src@ == source@,
                self.0@ == old(self).0@,
                self.wf(),
                cs == old(self).spec_crates(),
                forall|j: int| 0 <= j < i ==> #[trigger] cs[j].0 != source@,
            decreases n - i,
        {
            proof {
                self.lemma_view_at(i as int);
            }
            if self.0[i].name == src {
                proof {
                    assert(cs[i as int].0 == source@);
                    assert(self.0@[i as int].wf());
                }
                let ghost old_c = self.0@[i as int];
                let mut c = self.0.remove(i);
                c.extend(types);
                self.0.insert(i, c);
                proof {
                    let k = choose|k: int| 0 <= k < cs.len() && #[trigger] cs[k].0 == source@;
                    old(self).lemma_view_at(k);
                    old(self).lemma_view_at(i as int);
                    if k < i {
                        assert(old(self).0@[k].spec_name() != old(self).0@[i as int].spec_name());
                    } else if k > i {
                        assert(old(self).0@[i as int].spec_name() != old(self).0@[k].spec_name());
                    }
                    assert(k == i as int);
                    assert(self.0@ =~= old(self).0@.update(i as int, c));
                    assert(self.spec_crates() =~= cs.update(i as int, (source@, table_insert_all(cs[i as int].1, entries_view(types@)))));
                    assert forall|a: int, b: int| 0 <= a < b < self.0@.len() implies
                        #[trigger] self.0@[a].spec_name() != #[trigger] self.0@[b].spec_name() by {
                        assert(old(self).0@[a].spec_name() != old(self).0@[b].spec_name());
                    }
                    assert forall|a: int| 0 <= a < self.0@.len() implies (#[trigger] self.0@[a]).wf() by {
                        if a != i {
                            assert(old(self).0@[a].wf());
                        }
                    }
                }
                return;
            }
            i = i + 1;
        }
        let c = Crate::new(source, types);
        self.0.push(c);
        proof {
            assert(!(exists|k: int| 0 <= k < cs.len() && #[trigger] cs[k].0 == source@));
            assert(self.0@ =~= old(self).0@.push(c));
            assert(self.spec_crates() =~= cs.push((source@, table_insert_all(Seq::empty(), entries_view(types@)))));
            assert forall|a: int, b: int| 0 <= a < b < self.0@.len() implies
                #[trigger] self.0@[a].spec_name() != #[trigger] self.0@[b].spec_name() by {
                if b < n {
                    assert(old(self).0@[a].spec_name() != old(self).0@[b].spec_name());
                } else {
                    assert(cs[a].0 != source@);
                }
            }
            assert forall|a: int| 0 <= a < self.0@.len() implies (#[trigger] self.0@[a]).wf() by {
                if a < n {
                    assert(old(self).0@[a].wf());
                }
            }
        }
    }

    /// The first crate that provides a type named `name`, with that type's flags.
    pub fn find(&self, name: &str) -> (r: Option<(usize, TypeFlags)>)
        requires
            self.wf(),
        ensures
            r.is_none() == !(exists|i: int| 0 <= i < self.spec_crates().len() && provides(#[trigger] self.spec_crates()[i], name@)),
            r matches Some((c, f)) ==> c < self.spec_crates().len(),
            r matches Some((c, f)) ==> records(self.spec_crates()[c as int], name@, f),
            r matches Some((c, f)) ==> forall|i: int| 0 <= i < c ==> !provides(#[trigger] self.spec_crates()[i], name@),
    {
        let mut i: usize = 0;
        while i < self.0.len()
            invariant
                0 <= i <= self.0@.len(),
                self.wf(),
                forall|k: int| 0 <= k < i ==> !provides(#[trigger] self.spec_crates()[k], name@),
            decreases self.0@.len() - i,
        {
            proof {
                assert(self.0@[i as int].wf());
                self.lemma_view_at(i as int);
            }
            match self.0[i].flags_of(name) {
                Some(f) => {
                    proof {
                        let j = choose|j: int| 0 <= j < self.0@[i as int].spec_types().len() && #[trigger] self.0@[i as int].spec_types()[j] == (name@, f);
                        assert(self.spec_crates()[i as int].1[j] == (name@, f));
                        assert(self.spec_crates()[i as int].1[j].0 == name@);
                        assert(provides(self.spec_crates()[i as int], name@));
                        assert(0 <= j < self.spec_crates()[i as int].1.len());
                        assert(records(self.spec_crates()[i as int], name@, f));
                    }
                    return Some((i, f));
                },
                None => {
                    proof {
                        if provides(self.spec_crates()[i as int], name@) {
                            let j = choose|j: int| 0 <= j < self.spec_crates()[i as int].1.len() && #[trigger] self.spec_crates()[i as int].1[j].0 == name@;
                            assert(self.0@[i as int].spec_types()[j].0 == name@);
                        }
                    }
                },
            }
            i = i + 1;
        }
        None
    }

    /// The names of all types, joined with `|`: the pattern of types that
    /// bindgen must not generate.
    pub fn blocklist(&self) -> (r: String)
        ensures
            r@ == join(flat_names(self.spec_crates()), "|"@),
    {
        let mut out = String::new();
        let ghost parts: Seq<Seq<char>> = Seq::empty();
        proof {
            assert(out@ =~= join(parts, "|"@));
        }
        let mut first = true;
        let mut c: usize = 0;
        while c < self.0.len()
            invariant
                0 <= c <= self.0@.len(),
                parts == flat_names(self.spec_crates().take(c as int)),
                out@ == join(parts, "|"@),
                first == (parts.len() == 0),
            decreases self.0@.len() - c,
        {
            let names_c = self.0[c].type_names();
            let ghost base = parts;
            let mut j: usize = 0;
            while j < names_c.len()
                invariant
                    0 <= j <= names_c@.len(),
                    names_c@.map_values(|s: String| s@) == names(self.spec_crates()[c as int].1),
                    parts == base + names(self.spec_crates()[c as int].1).take(j as int),
                    out@ == join(parts, "|"@),
                    first == (parts.len() == 0),
                decreases names_c@.len() - j,
            {
                append_part(&mut out, Ghost(parts), first, names_c[j].as_str(), "|");
                proof {
                    assert(names_c@[j as int]@ == names(self.spec_crates()[c as int].1)[j as int]) by {
                        assert(names_c@.map_values(|s: String| s@)[j as int] == names_c@[j as int]@);
                    }
                    parts = parts.push(names_c@[j as int]@);
                    assert(parts =~= base + names(self.spec_crates()[c as int].1).take(j + 1));
                }
                first = false;
                j = j + 1;
            }
            proof {
                let cs = self.spec_crates().take(c + 1);
                assert(cs.drop_last() =~= self.spec_crates().take(c as int));
                assert(names(self.spec_crates()[c as int].1).take(j as int) =~= names(self.spec_crates()[c as int].1));
                assert(names_c@.len() == names(self.spec_crates()[c as int].1).len()) by {
                    assert(names_c@.map_values(|s: String| s@).len() == names_c@.len());
                }
            }
            c = c + 1;
        }
        assert(self.spec_crates().take(c as int) =~= self.spec_crates());
        out
    }

    /// The import lines of all crates that provide types, joined with newlines.
    pub fn uses(&self) -> (r: String)
        ensures
            r@ == join(all_uses(self.spec_crates()), "\n"@),
    {
        let mut out = String::new();
        let ghost parts: Seq<Seq<char>> = Seq::empty();
        proof {
            assert(out@ =~= join(parts, "\n"@));
        }
        let mut first = true;
        let mut c: usize = 0;
        while c < self.0.len()
            invariant
                0 <= c <= self.0@.len(),
                parts == all_uses(self.spec_crates().take(c as int)),
                out@ == join(parts, "\n"@),
                first == (parts.len() == 0),
            decreases self.0@.len() - c,
        {
            let ghost cs = self.spec_crates().take(c + 1);
            proof {
                assert(cs.drop_last() =~= self.spec_crates().take(c as int));
                assert(cs.last() == self.spec_crates()[c as int]);
            }
            match self.0[c].uses() {
                Some(u) => {
                    append_part(&mut out, Ghost(parts), first, u.as_str(), "\n");
                    proof {
                        parts = parts.push(u@);
                    }
                    first = false;
                },
                None => {},
            }
            c = c + 1;
        }
        assert(self.spec_crates().take(c as int) =~= self.spec_crates());
        out
    }

    /// Whether a blocklisted type, spelled by bindgen as the words `parts`,
    /// is recorded as implementing `t`: `None` when the words are not one
    /// of the shapes bindgen uses, otherwise whether a crate provides the
    /// type with that trait.
    pub fn blocklisted_type_implements_trait(&self, parts: &Vec<String>, t: DeriveTrait) -> (r: Option<bool>)
        requires
            self.wf(),
        ensures
            blocklisted_type_name(parts@.map_values(|s: String| s@)).is_none() ==> r.is_none(),
            blocklisted_type_name(parts@.map_values(|s: String| s@)) matches Some(n) ==> (r matches Some(b) && b == exists|i: int, j: int|
                0 <= i < self.spec_crates().len() && 0 <= j < self.spec_crates()[i].1.len()
                    && #[trigger] self.spec_crates()[i].1[j].0 == n
                    && (forall|k: int| 0 <= k < i ==> !provides(#[trigger] self.spec_crates()[k], n))
                    && self.spec_crates()[i].1[j].1.0 & derive_bit(t) == derive_bit(t)),
    {
        let ghost ps = parts@.map_values(|s: String| s@);
        let konst = "const".to_owned();
        let strukt = "struct".to_owned();
        let name: &str = if parts.len() == 3 && parts[0] == konst && parts[1] == strukt {
            parts[2].as_str()
        } else if parts.len() == 2 && (parts[0] == konst || parts[0] == strukt) {
            parts[1].as_str()
        } else if parts.len() == 1 {
            parts[0].as_str()
        } else {
            return None;
        };
        proof {
            assert(blocklisted_type_name(ps) == Some(name@));
        }
        match self.find(name) {
            None => Some(false),
            Some((c, f)) => {
                let b = f.implements(t);
                proof {
                    let j = choose|j: int| 0 <= j < self.spec_crates()[c as int].1.len() && #[trigger] self.spec_crates()[c as int].1[j] == (name@, f);
                    assert(self.spec_crates()[c as int].1[j] == (name@, f));
                    if b {
                        assert(self.spec_crates()[c as int].1[j].0 == name@);
                    } else {
                        assert forall|i: int, j2: int|
                            0 <= i < self.spec_crates().len() && 0 <= j2 < self.spec_crates()[i].1.len()
                                && #[trigger] self.spec_crates()[i].1[j2].0 == name@
                                && (forall|k: int| 0 <= k < i ==> !provides(#[trigger] self.spec_crates()[k], name@))
                            implies !(self.spec_crates()[i].1[j2].1.0 & derive_bit(t) == derive_bit(t)) by {
                            if i < c {
                                assert(provides(self.spec_crates()[i], name@));
                            } else if i > c {
                                assert(self.spec_crates()[c as int].1[j].0 == name@);
                                assert(provides(self.spec_crates()[c as int], name@));
                            } else {
                                assert(self.0@[c as int].wf());
                                self.lemma_view_at(c as int);
                                assert(names_unique(self.spec_crates()[c as int].1));
                                if j2 < j {
                                    assert(self.spec_crates()[c as int].1[j2].0 != self.spec_crates()[c as int].1[j].0);
                                } else if j2 > j {
                                    assert(self.spec_crates()[c as int].1[j2].0 != self.spec_crates()[c as int].1[j].0);
                                }
                            }
                        }
                    }
                }
                Some(b)
            },
        }
    }
}

} // verus!
