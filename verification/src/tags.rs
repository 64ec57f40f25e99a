use vstd::prelude::*;
use vstd::seq_lib::lemma_flatten_concat;

use crate::component::{Component, ComponentModel};
use crate::namespace::{namespace_models, Namespace, NamespaceModel};

verus! {

/// The two moments at which the game runs the scripts that are listed for it.
#[derive(Clone, Copy, Debug, PartialEq, Eq, Structural)]
pub enum Phase {
    /// When the pack is loaded.
    Load,
    /// On every tick.
    Tick,
}

impl ComponentModel {
    /// Whether the component is listed for `phase`: only a script of the
    /// `functions` directory can be, never a generic one.
    pub open spec fn runs_in(self, phase: Phase) -> bool {
        self.category is Function && match phase {
            Phase::Load => self.ran_on_load,
            Phase::Tick => self.ran_on_tick,
        }
    }
}

impl NamespaceModel {
    /// The identifiers `<namespace>:<path>` of the namespace's scripts that
    /// run in `phase`, in the order of the components.
    pub open spec fn tag_values(self, phase: Phase) -> Seq<Seq<char>> {
        self.components.filter(|c: ComponentModel| c.runs_in(phase)).map_values(
            |c: ComponentModel| self.name + ":"@ + c.path,
        )
    }
}

/// The identifiers of all scripts that run in `phase`: namespace after
/// namespace, and within each the components in their order.
pub open spec fn tag_values(namespaces: Seq<NamespaceModel>, phase: Phase) -> Seq<Seq<char>> {
    namespaces.map_values(|n: NamespaceModel| n.tag_values(phase)).flatten()
}

/// The lines between the brackets of a tag document: each value in double
/// quotes behind two tabs, and a comma and a line break between two values.
pub open spec fn tag_lines(values: Seq<Seq<char>>) -> Seq<char>
    decreases values.len(),
{
    if values.len() == 0 {
        Seq::empty()
    } else if values.len() == 1 {
        "\t\t\""@ + values[0] + "\""@
    } else {
        tag_lines(values.drop_last()) + ",\n\t\t\""@ + values.last() + "\""@
    }
}

/// The JSON document `{"values": [...]}` that lists `values`, laid out over
/// several lines and indented with tabs.
pub open spec fn tag_document(values: Seq<Seq<char>>) -> Seq<char> {
    "{\n\t\"values\": [\n"@ + tag_lines(values) + "\n\t]\n}"@
}

/// The characters of a run of strings, one for one.
pub open spec fn texts(strings: Seq<String>) -> Seq<Seq<char>> {
    strings.map_values(|s: String| s@)
}

impl Component {
    /// Whether the component is listed for `phase`.
    pub fn runs_in(&self, phase: Phase) -> (r: bool)
        ensures
            r == self@.runs_in(phase),
    {
        match self {
            Component::Function(it) => match phase {
                Phase::Load => it.ran_on_load,
                Phase::Tick => it.ran_on_tick,
            },
            _ => false,
        }
    }
}

/// Adds to `out` the identifiers of the scripts of `namespace` that run in
/// `phase`.
fn push_tag_values(namespace: &Namespace, phase: Phase, out: &mut Vec<String>)
    ensures
        texts(final(out)@) == texts(old(out)@) + namespace@.tag_values(phase),
{
    let ghost components = namespace@.components;
    let ghost runs = |c: ComponentModel| c.runs_in(phase);
    let ghost value = |c: ComponentModel| namespace@.name + ":"@ + c.path;
    let mut i: usize = 0;
    proof {
        reveal(Seq::filter);
        let listed = components.take(0).filter(runs);
        assert(texts(out@) =~= texts(old(out)@) + listed.map_values(value));
    }
    while i < namespace.components.len()
        invariant
            i <= namespace.components.len(),
            components == namespace@.components,
            runs == |c: ComponentModel| c.runs_in(phase),
            value == |c: ComponentModel| namespace@.name + ":"@ + c.path,
            texts(out@) == texts(old(out)@) + components.take(i as int).filter(runs).map_values(
                value,
            ),
        decreases namespace.components.len() - i,
    {
        let component = &namespace.components[i];
        let ghost listed = components.take(i as int).filter(runs);
        proof {
            assert(components.take(i + 1) =~= components.take(i as int).push(component@));
            components.take(i as int).lemma_filter_push(component@, runs);
        }
        if component.runs_in(phase) {
            let mut identifier = namespace.name.clone();
            identifier.append(":");
            identifier.append(component.item_path().as_str());
            let ghost before = texts(out@);
            out.push(identifier);
            assert(texts(out@) =~= before.push(value(component@)));
            assert(texts(out@) =~= texts(old(out)@) + listed.push(component@).map_values(value));
        }
        i += 1;
    }
    assert(components.take(i as int) =~= components);
}

/// Lists the identifiers of all scripts that run in `phase`.
pub fn collect_tag_values(namespaces: &Vec<Namespace>, phase: Phase) -> (r: Vec<String>)
    ensures
        texts(r@) == tag_values(namespace_models(namespaces@), phase),
{
    let ghost models = namespace_models(namespaces@);
    let ghost values = |n: NamespaceModel| n.tag_values(phase);
    let mut out: Vec<String> = Vec::new();
    let mut i: usize = 0;
    assert(texts(out@) =~= models.take(0).map_values(values).flatten());
    while i < namespaces.len()
        invariant
            i <= namespaces.len(),
            models == namespace_models(namespaces@),
            values == |n: NamespaceModel| n.tag_values(phase),
            texts(out@) == models.take(i as int).map_values(values).flatten(),
        decreases namespaces.len() - i,
    {
        push_tag_values(&namespaces[i], phase, &mut out);
        proof {
            let before = models.take(i as int);
            assert(models.take(i + 1) =~= before.push(models[i as int]));
            before.lemma_push_map_commute(values, models[i as int]);
            before.map_values(values).lemma_flatten_push(values(models[i as int]));
        }
        i += 1;
    }
    assert(models.take(i as int) =~= models);
    out
}

/// Writes the tag document that lists `values`.
pub fn tag_document_text(values: &Vec<String>) -> (r: String)
    ensures
        r@ == tag_document(texts(values@)),
{
    let ghost all = texts(values@);
    let mut lines = String::new();
    let mut i: usize = 0;
    assert(lines@ =~= tag_lines(all.take(0)));
    while i < values.len()
        invariant
            i <= values.len(),
            all == texts(values@),
            lines@ == tag_lines(all.take(i as int)),
        decreases values.len() - i,
    {
        if i == 0 {
            lines.append("\t\t\"");
        } else {
            lines.append(",\n\t\t\"");
        }
        lines.append(values[i].as_str());
        lines.append("\"");
        proof {
            let next = all.take(i + 1);
            assert(next.drop_last() =~= all.take(i as int));
            assert(next.last() == values@[i as int]@);
            assert(lines@ =~= tag_lines(next));
        }
        i += 1;
    }
    assert(all.take(i as int) =~= all);
    let mut text = "{\n\t\"values\": [\n".to_string();
    text.append(lines.as_str());
    text.append("\n\t]\n}");
    text
}

/// The scripts of a namespace are listed in the order of its components:
/// the values of a run of components followed by another run are the values
/// of the first run followed by those of the second.
pub proof fn lemma_namespace_tag_values_concat(
    name: Seq<char>,
    first: Seq<ComponentModel>,
    second: Seq<ComponentModel>,
    phase: Phase,
)
    ensures
        (NamespaceModel { name, components: first + second }).tag_values(phase) == (NamespaceModel {
            name,
            components: first,
        }).tag_values(phase) + (NamespaceModel { name, components: second }).tag_values(phase),
{
    let runs = |c: ComponentModel| c.runs_in(phase);
    let value = |c: ComponentModel| name + ":"@ + c.path;
    Seq::filter_distributes_over_add(first, second, runs);
    assert((first.filter(runs) + second.filter(runs)).map_values(value) =~= first.filter(
        runs,
    ).map_values(value) + second.filter(runs).map_values(value));
}

/// A namespace of one component lists it as `<namespace>:<path>` if it is a
/// script of the `functions` directory that runs in the phase, and lists
/// nothing otherwise.
pub proof fn lemma_tag_values_of_one(name: Seq<char>, component: ComponentModel, phase: Phase)
    ensures
        component.runs_in(phase) ==> (NamespaceModel {
            name,
            components: seq![component],
        }).tag_values(phase) == seq![name + ":"@ + component.path],
        !component.runs_in(phase) ==> (NamespaceModel {
            name,
            components: seq![component],
        }).tag_values(phase) == Seq::<Seq<char>>::empty(),
{
    let runs = |c: ComponentModel| c.runs_in(phase);
    let value = |c: ComponentModel| name + ":"@ + c.path;
    let none = Seq::<ComponentModel>::empty();
    assert(none.filter(runs) =~= none) by {
        reveal(Seq::filter);
    }
    none.lemma_filter_push(component, runs);
    assert(seq![component] =~= none.push(component));
    if component.runs_in(phase) {
        assert(none.push(component).map_values(value) =~= seq![value(component)]);
    } else {
        assert(none.map_values(value) =~= Seq::<Seq<char>>::empty());
    }
}

/// Scripts are listed namespace after namespace: the values of a run of
/// namespaces followed by another run are the values of the first run
/// followed by those of the second.
pub proof fn lemma_tag_values_concat(
    first: Seq<NamespaceModel>,
    second: Seq<NamespaceModel>,
    phase: Phase,
)
    ensures
        tag_values(first + second, phase) == tag_values(first, phase) + tag_values(second, phase),
{
    let values = |n: NamespaceModel| n.tag_values(phase);
    assert((first + second).map_values(values) =~= first.map_values(values) + second.map_values(
        values,
    ));
    lemma_flatten_concat(first.map_values(values), second.map_values(values));
}

/// A single namespace lists what it lists by itself.
pub proof fn lemma_tag_values_of_namespace(namespace: NamespaceModel, phase: Phase)
    ensures
        tag_values(seq![namespace], phase) == namespace.tag_values(phase),
{
    let values = |n: NamespaceModel| n.tag_values(phase);
    assert(seq![namespace].map_values(values) =~= seq![namespace.tag_values(phase)]);
    seq![namespace.tag_values(phase)].lemma_flatten_singleton();
}

/// Where no component runs in a phase, and so in every pack without scripts,
/// nothing is listed for the phase, and the tag document is the one with the
/// empty list: no comma, no value.
pub proof fn lemma_no_script_empty_document(namespaces: Seq<NamespaceModel>, phase: Phase)
    requires
        forall|n: int, c: int|
            0 <= n < namespaces.len() && 0 <= c < namespaces[n].components.len()
                ==> !(#[trigger] namespaces[n].components[c]).runs_in(phase),
    ensures
        tag_values(namespaces, phase) == Seq::<Seq<char>>::empty(),
        tag_document(tag_values(namespaces, phase)) == "{\n\t\"values\": [\n\n\t]\n}"@,
    decreases namespaces.len(),
{
    let values = |n: NamespaceModel| n.tag_values(phase);
    if namespaces.len() == 0 {
        assert(namespaces.map_values(values) =~= Seq::<Seq<Seq<char>>>::empty());
    } else {
        let last = namespaces.last();
        let rest = namespaces.drop_last();
        let runs = |c: ComponentModel| c.runs_in(phase);
        assert(last.components.filter(runs).len() == 0) by {
            if last.components.filter(runs).len() > 0 {
                let listed = last.components.filter(runs)[0];
                last.components.lemma_filter_pred(runs, 0);
                last.components.lemma_filter_contains_rev(runs, listed);
                let c = choose|c: int|
                    0 <= c < last.components.len() && last.components[c] == listed;
                assert(!namespaces[namespaces.len() - 1].components[c].runs_in(phase));
            }
        }
        assert(last.tag_values(phase) =~= Seq::<Seq<char>>::empty());
        assert forall|n: int, c: int|
            0 <= n < rest.len() && 0 <= c < rest[n].components.len() implies !(
        #[trigger] rest[n].components[c]).runs_in(phase) by {
            assert(!namespaces[n].components[c].runs_in(phase));
        }
        lemma_no_script_empty_document(rest, phase);
        assert(namespaces =~= rest + seq![last]);
        lemma_tag_values_concat(rest, seq![last], phase);
        lemma_tag_values_of_namespace(last, phase);
    }
    assert(tag_values(namespaces, phase) =~= Seq::<Seq<char>>::empty());
    reveal_strlit("{\n\t\"values\": [\n");
    reveal_strlit("\n\t]\n}");
    reveal_strlit("{\n\t\"values\": [\n\n\t]\n}");
    assert(tag_document(Seq::empty()) =~= "{\n\t\"values\": [\n\n\t]\n}"@);
}

impl NamespaceModel {
    /// The namespace without everything but its scripts of the `functions`
    /// directory.
    pub open spec fn scripts(self) -> NamespaceModel {
        NamespaceModel {
            name: self.name,
            components: self.components.filter(|c: ComponentModel| c.category is Function),
        }
    }
}

proof fn lemma_filter_of_scripts(components: Seq<ComponentModel>, phase: Phase)
    ensures
        components.filter(|c: ComponentModel| c.category is Function).filter(
            |c: ComponentModel| c.runs_in(phase),
        ) == components.filter(|c: ComponentModel| c.runs_in(phase)),
    decreases components.len(),
{
    let script = |c: ComponentModel| c.category is Function;
    let runs = |c: ComponentModel| c.runs_in(phase);
    reveal(Seq::filter);
    if components.len() > 0 {
        let rest = components.drop_last();
        lemma_filter_of_scripts(rest, phase);
        assert(components =~= rest.push(components.last()));
        rest.lemma_filter_push(components.last(), script);
        rest.lemma_filter_push(components.last(), runs);
        rest.filter(script).lemma_filter_push(components.last(), runs);
    }
}

/// What is listed depends on the scripts of the `functions` directories
/// alone: a pack lists the same values in the same order when everything
/// else is taken out of its namespaces.
pub proof fn lemma_tag_values_of_scripts(namespaces: Seq<NamespaceModel>, phase: Phase)
    ensures
        tag_values(namespaces.map_values(|n: NamespaceModel| n.scripts()), phase) == tag_values(
            namespaces,
            phase,
        ),
{
    let values = |n: NamespaceModel| n.tag_values(phase);
    let scripts = namespaces.map_values(|n: NamespaceModel| n.scripts());
    assert forall|i: int| 0 <= i < namespaces.len() implies scripts[i].tag_values(phase)
        == namespaces[i].tag_values(phase) by {
        lemma_filter_of_scripts(namespaces[i].components, phase);
    }
    assert(scripts.map_values(values) =~= namespaces.map_values(values));
}

} // verus!
