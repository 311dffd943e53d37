//! What the generator knows about the whole API before it looks at one
//! class: which names are builtin types, which classes are singletons, and
//! who inherits from whom.

use vstd::prelude::*;
use vstd::string::*;
use crate::codegen::api::{builtin_names, Class, ExtensionApi};
use crate::text::{contains_name, copy_names, str_eq, texts};

verus! {

/// One edge of the inheritance graph.
#[derive(Debug)]
pub struct Inheritance {
    pub derived: String,
    pub base: String,
}

/// The inheritance graph: for each class that has one, its direct base.
#[derive(Debug)]
pub struct InheritanceTree {
    pub derived_to_base: Vec<Inheritance>,
}

/// The graph as pairs of names, derived class first.
pub open spec fn edges(tree: Seq<Inheritance>) -> Seq<(Seq<char>, Seq<char>)> {
    Seq::new(tree.len(), |i: int| (tree[i].derived@, tree[i].base@))
}

/// The position of the first edge that starts at `derived`, or the number of
/// edges where there is none.
pub open spec fn edge_position(edges: Seq<(Seq<char>, Seq<char>)>, derived: Seq<char>) -> int
    decreases edges.len(),
{
    if edges.len() == 0 {
        0
    } else if edges[0].0 == derived {
        0
    } else {
        1 + edge_position(edges.drop_first(), derived)
    }
}

/// The direct base of `derived`, if the graph names one.
pub open spec fn direct_base_of(edges: Seq<(Seq<char>, Seq<char>)>, derived: Seq<char>) -> Option<
    Seq<char>,
> {
    let p = edge_position(edges, derived);
    if 0 <= p < edges.len() {
        Some(edges[p].1)
    } else {
        None
    }
}

/// The bases of `derived`, nearest first, following at most `steps` edges.
pub open spec fn bases_within(
    edges: Seq<(Seq<char>, Seq<char>)>,
    derived: Seq<char>,
    steps: nat,
) -> Seq<Seq<char>>
    decreases steps,
{
    if steps == 0 {
        Seq::empty()
    } else {
        match direct_base_of(edges, derived) {
            Some(base) => seq![base] + bases_within(edges, base, (steps - 1) as nat),
            None => Seq::empty(),
        }
    }
}

/// All bases of `derived`, nearest first. In a graph without cycles no chain
/// is longer than the number of edges, so that many steps reach the root.
pub open spec fn all_bases_of(edges: Seq<(Seq<char>, Seq<char>)>, derived: Seq<char>) -> Seq<
    Seq<char>,
> {
    bases_within(edges, derived, edges.len())
}

/// Whether `derived` is `base` or has it among its bases.
pub open spec fn inherits_from(
    edges: Seq<(Seq<char>, Seq<char>)>,
    derived: Seq<char>,
    base: Seq<char>,
) -> bool {
    derived == base || all_bases_of(edges, derived).contains(base)
}

/// `p` is the position of the first edge from `derived` when no edge before
/// `p` starts there and `p` is the end or starts there.
pub proof fn lemma_edge_position(edges: Seq<(Seq<char>, Seq<char>)>, derived: Seq<char>, p: int)
    requires
        0 <= p <= edges.len(),
        forall|k: int| 0 <= k < p ==> (#[trigger] edges[k]).0 != derived,
        p < edges.len() ==> edges[p].0 == derived,
    ensures
        edge_position(edges, derived) == p,
    decreases edges.len(),
{
    if edges.len() > 0 && p > 0 {
        let rest = edges.drop_first();
        assert(edges[0].0 != derived);
        assert forall|k: int| 0 <= k < p - 1 implies (#[trigger] rest[k]).0 != derived by {
            assert(rest[k] == edges[k + 1]);
        }
        lemma_edge_position(rest, derived, p - 1);
    }
}

/// The position of the first edge from `derived` lies within the edges or at
/// their end; before it no edge starts at `derived`, and at it, if within,
/// the edge does.
pub proof fn lemma_edge_position_bounds(edges: Seq<(Seq<char>, Seq<char>)>, derived: Seq<char>)
    ensures
        0 <= edge_position(edges, derived) <= edges.len(),
        forall|k: int|
            0 <= k < edge_position(edges, derived) ==> (#[trigger] edges[k]).0 != derived,
        edge_position(edges, derived) < edges.len() ==> edges[edge_position(edges, derived)].0
            == derived,
    decreases edges.len(),
{
    if edges.len() > 0 && edges[0].0 != derived {
        let rest = edges.drop_first();
        lemma_edge_position_bounds(rest, derived);
        let p = edge_position(edges, derived);
        assert forall|k: int| 0 <= k < p implies (#[trigger] edges[k]).0 != derived by {
            if k > 0 {
                assert(rest[k - 1] == edges[k]);
            }
        }
    }
}

/// A class with a direct base inherits from itself, from that base, and from
/// what the base inherits from within the steps that are left; from nothing
/// else.
pub proof fn lemma_inherits_through_base(
    edges: Seq<(Seq<char>, Seq<char>)>,
    derived: Seq<char>,
    base: Seq<char>,
    other: Seq<char>,
)
    requires
        direct_base_of(edges, derived) == Some(base),
    ensures
        edges.len() > 0,
        inherits_from(edges, derived, other) <==> other == derived || other == base
            || bases_within(edges, base, (edges.len() - 1) as nat).contains(other),
{
    lemma_edge_position_bounds(edges, derived);
    let rest = bases_within(edges, base, (edges.len() - 1) as nat);
    let all = all_bases_of(edges, derived);
    assert(all == seq![base] + rest);
    if all.contains(other) {
        let i = choose|i: int| 0 <= i < all.len() && all[i] == other;
        if i > 0 {
            assert(rest[i - 1] == other);
        }
    }
    if rest.contains(other) {
        let i = choose|i: int| 0 <= i < rest.len() && rest[i] == other;
        assert(all[i + 1] == other);
    }
    if other == base {
        assert(all[0] == other);
    }
}

impl InheritanceTree {
    pub fn new() -> (tree: Self)
        ensures
            tree.derived_to_base@.len() == 0,
    {
        Self { derived_to_base: Vec::new() }
    }

    /// Records that `derived` inherits directly from `base`.
    pub fn insert(&mut self, derived: &str, base: &str)
        ensures
            edges(final(self).derived_to_base@) == edges(old(self).derived_to_base@).push(
                (derived@, base@),
            ),
    {
        self.derived_to_base.push(
            Inheritance { derived: String::from_str(derived), base: String::from_str(base) },
        );
        proof {
            assert(edges(self.derived_to_base@) =~= edges(old(self).derived_to_base@).push(
                (derived@, base@),
            ));
        }
    }

    /// The direct base of `derived`, if the graph names one.
    pub fn direct_base(&self, derived: &str) -> (base: Option<&String>)
        ensures
            match base {
                Some(b) => direct_base_of(edges(self.derived_to_base@), derived@) == Some(b@),
                None => direct_base_of(edges(self.derived_to_base@), derived@).is_none(),
            },
    {
        let mut i: usize = 0;
        while i < self.derived_to_base.len()
            invariant
                i <= self.derived_to_base.len(),
                forall|k: int|
                    0 <= k < i ==> (#[trigger] edges(self.derived_to_base@)[k]).0 != derived@,
            decreases self.derived_to_base.len() - i,
        {
            if str_eq(self.derived_to_base[i].derived.as_str(), derived) {
                proof {
                    lemma_edge_position(edges(self.derived_to_base@), derived@, i as int);
                }
                return Some(&self.derived_to_base[i].base);
            }
            i = i + 1;
        }
        proof {
            lemma_edge_position(edges(self.derived_to_base@), derived@, i as int);
        }
        None
    }

    /// All bases of `derived`, nearest first.
    pub fn collect_all_bases(&self, derived: &str) -> (bases: Vec<String>)
        ensures
            texts(bases@) == all_bases_of(edges(self.derived_to_base@), derived@),
    {
        let ghost graph = edges(self.derived_to_base@);
        let limit = self.derived_to_base.len();
        let mut bases: Vec<String> = Vec::new();
        let mut current: String = String::from_str(derived);
        let mut steps: usize = 0;
        proof {
            assert(texts(bases@) =~= Seq::<Seq<char>>::empty());
        }
        while steps < limit
            invariant
                steps <= limit,
                limit == graph.len(),
                graph == edges(self.derived_to_base@),
                all_bases_of(graph, derived@) == texts(bases@) + bases_within(
                    graph,
                    current@,
                    (limit - steps) as nat,
                ),
            decreases limit - steps,
        {
            match self.direct_base(current.as_str()) {
                None => {
                    proof {
                        assert(texts(bases@) + Seq::<Seq<char>>::empty() =~= texts(bases@));
                    }
                    return bases;
                },
                Some(base) => {
                    let ghost before = texts(bases@);
                    let ghost rest = bases_within(graph, base@, (limit - steps - 1) as nat);
                    let next = base.clone();
                    bases.push(base.clone());
                    proof {
                        assert(texts(bases@) =~= before.push(base@));
                        assert(before + (seq![base@] + rest) =~= before.push(base@) + rest);
                    }
                    current = next;
                    steps = steps + 1;
                },
            }
        }
        proof {
            assert(texts(bases@) + Seq::<Seq<char>>::empty() =~= texts(bases@));
        }
        bases
    }

    /// Whether `derived` is `base` or has it among its bases.
    pub fn inherits(&self, derived: &str, base: &str) -> (yes: bool)
        ensures
            yes == inherits_from(edges(self.derived_to_base@), derived@, base@),
    {
        if str_eq(derived, base) {
            return true;
        }
        let bases = self.collect_all_bases(derived);
        contains_name(&bases, base)
    }
}

/// What the generator knows about the whole API.
#[derive(Debug)]
pub struct Context {
    pub builtin_types: Vec<String>,
    pub native_structures: Vec<String>,
    pub singletons: Vec<String>,
    pub inheritance_tree: InheritanceTree,
}

/// The edges that the classes of a description contribute, in order: one for
/// each class that names a base.
pub open spec fn class_edges(classes: Seq<Class>) -> Seq<(Seq<char>, Seq<char>)>
    decreases classes.len(),
{
    if classes.len() == 0 {
        Seq::empty()
    } else {
        let front = class_edges(classes.drop_last());
        match classes.last().inherits {
            Some(base) => front.push((classes.last().name@, base@)),
            None => front,
        }
    }
}

impl Context {
    /// Gathers the names of the builtin types, the native structures and the
    /// singletons, and the inheritance graph of the classes.
    pub fn build_from_api(api: &ExtensionApi) -> (ctx: Self)
        ensures
            texts(ctx.builtin_types@) == builtin_names(api.builtin_classes@),
            texts(ctx.native_structures@) == texts(api.native_structures@),
            texts(ctx.singletons@) == texts(api.singletons@),
            edges(ctx.inheritance_tree.derived_to_base@) == class_edges(api.classes@),
    {
        let mut builtin_types: Vec<String> = Vec::new();
        let mut i: usize = 0;
        while i < api.builtin_classes.len()
            invariant
                i <= api.builtin_classes.len(),
                texts(builtin_types@) == builtin_names(api.builtin_classes@).take(i as int),
            decreases api.builtin_classes.len() - i,
        {
            let ghost before = texts(builtin_types@);
            builtin_types.push(api.builtin_classes[i].name.clone());
            proof {
                assert(texts(builtin_types@) =~= before.push(api.builtin_classes[i as int].name@));
                assert(before.push(api.builtin_classes[i as int].name@) =~= builtin_names(
                    api.builtin_classes@,
                ).take(i + 1));
            }
            i = i + 1;
        }
        proof {
            assert(builtin_names(api.builtin_classes@).take(i as int) =~= builtin_names(
                api.builtin_classes@,
            ));
        }
        let native_structures = copy_names(&api.native_structures);
        let singletons = copy_names(&api.singletons);
        let mut inheritance_tree = InheritanceTree::new();
        let mut j: usize = 0;
        proof {
            assert(api.classes@.take(0) =~= Seq::<Class>::empty());
            assert(edges(inheritance_tree.derived_to_base@) =~= class_edges(api.classes@.take(0)));
        }
        while j < api.classes.len()
            invariant
                j <= api.classes.len(),
                edges(inheritance_tree.derived_to_base@) == class_edges(api.classes@.take(j as int)),
            decreases api.classes.len() - j,
        {
            let class = &api.classes[j];
            proof {
                assert(api.classes@.take(j + 1).drop_last() =~= api.classes@.take(j as int));
                assert(api.classes@.take(j + 1).last() == *class);
            }
            match &class.inherits {
                Some(base) => {
                    inheritance_tree.insert(class.name.as_str(), base.as_str());
                },
                None => {},
            }
            j = j + 1;
        }
        proof {
            assert(api.classes@.take(j as int) =~= api.classes@);
        }
        Context { builtin_types, native_structures, singletons, inheritance_tree }
    }

    /// Whether the engine's class `class_name` exists once, as a singleton.
    pub fn is_singleton(&self, class_name: &str) -> (yes: bool)
        ensures
            yes == texts(self.singletons@).contains(class_name@),
    {
        contains_name(&self.singletons, class_name)
    }

    /// Whether `ty` names a builtin type.
    pub fn is_builtin(&self, ty: &str) -> (yes: bool)
        ensures
            yes == texts(self.builtin_types@).contains(ty@),
    {
        contains_name(&self.builtin_types, ty)
    }

    /// Whether `ty` names a plain structure passed by pointer.
    pub fn is_native_structure(&self, ty: &str) -> (yes: bool)
        ensures
            yes == texts(self.native_structures@).contains(ty@),
    {
        contains_name(&self.native_structures, ty)
    }
}

} // verus!
