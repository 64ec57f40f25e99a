use vstd::prelude::*;
use vstd::seq_lib::lemma_flatten_concat;
use vstd::utf8::{
    decode_utf8, encode_utf8, encode_utf8_decode_utf8, encode_utf8_valid_utf8, valid_utf8,
};

use crate::archive::{
    all_fit, distinct_paths, entry_models, first_unfit, keep_last, keep_last_entries,
    lemma_keep_last_distinct, lemma_keep_last_keeps_last, lemma_keep_last_of_distinct,
    path_fits, superseded, ArchiveEntry, ArchiveWriter, FileModel,
};
use crate::component::{Component, ComponentModel};
use crate::error::BuildError;
use crate::namespace::{namespace_models, Namespace, NamespaceModel};
use crate::tags::{collect_tag_values, tag_document, tag_document_text, tag_values, Phase};
use crate::text::{decimal, decimal_text};
use crate::trusted::{archive_entries, archive_open, stored_archive};

pub mod mcfunction;
pub mod structure;

verus! {

/// Where the pack's metadata lies in the archive.
pub const PACK_META_PATH: &'static str = "pack.mcmeta";

/// Where the list of the scripts that run on load lies in the archive.
pub const LOAD_TAG_PATH: &'static str = "data/minecraft/tags/functions/load.json";

/// Where the list of the scripts that run on every tick lies in the archive.
pub const TICK_TAG_PATH: &'static str = "data/minecraft/tags/functions/tick.json";

/// What a pack is made of: its namespaces in the order in which they were
/// added, the number of its format, and its description.
pub ghost struct PackModel {
    pub namespaces: Seq<NamespaceModel>,
    pub pack_format: nat,
    pub description: Seq<char>,
}

/// How many components the first `n` namespaces have together.
pub open spec fn components_before(namespaces: Seq<NamespaceModel>, n: int) -> int
    decreases n,
{
    if n <= 0 {
        0
    } else {
        components_before(namespaces, n - 1) + namespaces[n - 1].components.len()
    }
}

impl PackModel {
    /// The text of the pack's metadata: a JSON object `pack` with the number
    /// `pack_format` and the string `description`, laid out over several
    /// lines. The description stands between the quotes as it is: nothing in
    /// it is escaped.
    pub open spec fn meta_text(self) -> Seq<char> {
        "{\n    \"pack\": {\n        \"pack_format\": "@ + decimal(self.pack_format)
            + ",\n        \"description\": \""@ + self.description + "\"\n    }\n}"@
    }

    /// The entries of all components: namespace after namespace, and within
    /// each the components in their order.
    pub open spec fn component_entries(self) -> Seq<FileModel> {
        self.namespaces.map_values(|n: NamespaceModel| n.entries()).flatten()
    }

    /// Everything that is handed to the archive, in the order of the
    /// hand-over: the metadata, the components, then the two tag documents.
    pub open spec fn raw_entries(self) -> Seq<FileModel> {
        seq![(PACK_META_PATH@, encode_utf8(self.meta_text()))] + self.component_entries() + seq![
            (LOAD_TAG_PATH@, encode_utf8(tag_document(tag_values(self.namespaces, Phase::Load)))),
            (TICK_TAG_PATH@, encode_utf8(tag_document(tag_values(self.namespaces, Phase::Tick)))),
        ]
    }

    /// The files of the archive: of the entries that share a path only the
    /// one handed over last, so that no two files have the same path.
    pub open spec fn entries(self) -> Seq<FileModel> {
        keep_last(self.raw_entries())
    }

    /// The place, among everything that is handed to the archive, of the
    /// entry of the component at `c` in the namespace at `n`: behind the
    /// metadata and the entries of all components before it.
    pub open spec fn position(self, n: int, c: int) -> int {
        1 + components_before(self.namespaces, n) + c
    }
}

/// Assembles a data pack: collects namespaces and the pack's metadata, and
/// turns them into the files of one archive.
pub struct DataPackBuilder {
    namespaces: Vec<Namespace>,
    pack_format: usize,
    description: String,
}

impl View for DataPackBuilder {
    type V = PackModel;

    closed spec fn view(&self) -> PackModel {
        PackModel {
            namespaces: namespace_models(self.namespaces@),
            pack_format: self.pack_format as nat,
            description: self.description@,
        }
    }
}

/// Adds to `out` one entry for each component of `namespace`.
fn push_component_entries(namespace: &Namespace, out: &mut Vec<ArchiveEntry>)
    ensures
        entry_models(final(out)@) == entry_models(old(out)@) + namespace@.entries(),
{
    let ghost components = namespace@.components;
    let ghost entry = |c: ComponentModel| (c.entry_path(namespace@.name), c.content);
    let mut i: usize = 0;
    assert(entry_models(out@) =~= entry_models(old(out)@) + components.take(0).map_values(entry));
    while i < namespace.components.len()
        invariant
            i <= namespace.components.len(),
            components == namespace@.components,
            entry == |c: ComponentModel| (c.entry_path(namespace@.name), c.content),
            entry_models(out@) == entry_models(old(out)@) + components.take(i as int).map_values(
                entry,
            ),
        decreases namespace.components.len() - i,
    {
        let component = &namespace.components[i];
        let ghost before = entry_models(out@);
        out.push(
            ArchiveEntry {
                path: component.archive_entry_path(namespace.name.as_str()),
                content: component.content().clone(),
            },
        );
        proof {
            assert(entry_models(out@) =~= before.push(entry(component@)));
            assert(components.take(i + 1) =~= components.take(i as int).push(component@));
            components.take(i as int).lemma_push_map_commute(entry, component@);
        }
        i += 1;
    }
    assert(components.take(i as int) =~= components);
}

impl DataPackBuilder {
    /// Creates a new instance of DataPackBuilder, with format 10, an empty
    /// description and no namespace.
    pub fn new() -> (r: Self)
        ensures
            r@ == (PackModel {
                namespaces: Seq::empty(),
                pack_format: 10,
                description: Seq::empty(),
            }),
    {
        let r = DataPackBuilder {
            namespaces: Vec::new(),
            pack_format: 10,
            description: String::new(),
        };
        assert(r@.namespaces =~= Seq::empty());
        r
    }

    /// Sets the "pack_format" in the pack.mcmeta. Any number is taken here;
    /// `build` refuses a pack whose format is zero.
    pub fn set_pack_format(&mut self, pack_format: usize) -> (r: &mut Self)
        ensures
            r@ == (PackModel { pack_format: pack_format as nat, ..old(self)@ }),
            *final(self) == *final(r),
    {
        self.pack_format = pack_format;
        self
    }

    /// Sets the "description" in the pack.mcmeta
    pub fn set_description(&mut self, description: &str) -> (r: &mut Self)
        ensures
            r@ == (PackModel { description: description@, ..old(self)@ }),
            *final(self) == *final(r),
    {
        self.description = description.to_string();
        self
    }

    /// Adds a copy of `namespace` behind the namespaces that are there. What
    /// the caller does to `namespace` afterwards does not reach the pack.
    pub fn add_namespace(&mut self, namespace: &Namespace) -> (r: &mut Self)
        ensures
            r@ == (PackModel {
                namespaces: old(self)@.namespaces.push(namespace@),
                ..old(self)@
            }),
            *final(self) == *final(r),
    {
        self.namespaces.push(namespace.clone());
        assert(namespace_models(self.namespaces@) =~= namespace_models(
            old(self).namespaces@,
        ).push(namespace@));
        self
    }

    /// The text of the pack.mcmeta file.
    pub fn pack_meta(&self) -> (r: String)
        ensures
            r@ == self@.meta_text(),
    {
        let mut text = "{\n    \"pack\": {\n        \"pack_format\": ".to_string();
        text.append(decimal_text(self.pack_format).as_str());
        text.append(",\n        \"description\": \"");
        text.append(self.description.as_str());
        text.append("\"\n    }\n}");
        text
    }

    /// The two tag documents by which the game finds the scripts to run:
    /// first the one for loading, then the one for every tick.
    pub fn create_vanilla_function_tags(&self) -> (r: (ArchiveEntry, ArchiveEntry))
        ensures
            r.0@ == (
                LOAD_TAG_PATH@,
                encode_utf8(tag_document(tag_values(self@.namespaces, Phase::Load))),
            ),
            r.1@ == (
                TICK_TAG_PATH@,
                encode_utf8(tag_document(tag_values(self@.namespaces, Phase::Tick))),
            ),
    {
        let load_file = tag_document_text(&collect_tag_values(&self.namespaces, Phase::Load));
        let tick_file = tag_document_text(&collect_tag_values(&self.namespaces, Phase::Tick));
        (
            ArchiveEntry {
                path: LOAD_TAG_PATH.to_string(),
                content: load_file.as_str().as_bytes_vec(),
            },
            ArchiveEntry {
                path: TICK_TAG_PATH.to_string(),
                content: tick_file.as_str().as_bytes_vec(),
            },
        )
    }

    /// Everything that is handed to the archive, in the order of the
    /// hand-over.
    pub fn raw_entries(&self) -> (r: Vec<ArchiveEntry>)
        ensures
            entry_models(r@) == self@.raw_entries(),
    {
        let ghost models = namespace_models(self.namespaces@);
        let ghost entries = |n: NamespaceModel| n.entries();
        let mut out: Vec<ArchiveEntry> = Vec::new();
        out.push(
            ArchiveEntry {
                path: PACK_META_PATH.to_string(),
                content: self.pack_meta().as_str().as_bytes_vec(),
            },
        );
        let ghost head = entry_models(out@);
        assert(head =~= seq![(PACK_META_PATH@, encode_utf8(self@.meta_text()))]);
        let mut i: usize = 0;
        assert(entry_models(out@) =~= head + models.take(0).map_values(entries).flatten());
        while i < self.namespaces.len()
            invariant
                i <= self.namespaces.len(),
                models == namespace_models(self.namespaces@),
                entries == |n: NamespaceModel| n.entries(),
                entry_models(out@) == head + models.take(i as int).map_values(entries).flatten(),
            decreases self.namespaces.len() - i,
        {
            push_component_entries(&self.namespaces[i], &mut out);
            proof {
                let before = models.take(i as int);
                assert(models.take(i + 1) =~= before.push(models[i as int]));
                before.lemma_push_map_commute(entries, models[i as int]);
                before.map_values(entries).lemma_flatten_push(entries(models[i as int]));
            }
            i += 1;
        }
        assert(models.take(i as int) =~= models);
        let ghost body = entry_models(out@);
        let (load, tick) = self.create_vanilla_function_tags();
        out.push(load);
        out.push(tick);
        assert(entry_models(out@) =~= body + seq![load@, tick@]);
        out
    }

    /// The files of the archive, in the order in which they are written.
    pub fn entries(&self) -> (r: Vec<ArchiveEntry>)
        ensures
            entry_models(r@) == self@.entries(),
    {
        keep_last_entries(&self.raw_entries())
    }

    /// Assembles the archive in memory and hands out its bytes: the zip
    /// container of the pack's files. A pack format of zero is refused before
    /// anything is written. Otherwise the build succeeds if and only if the
    /// archive can take every file; if not, it stops at the first file that
    /// the archive cannot take and names it: one whose path is too long, or
    /// one whose content is too large. Nothing is handed out unless every
    /// file was written and the archive was closed.
    pub fn build(&self) -> (r: Result<Vec<u8>, BuildError>)
        ensures
            self@.pack_format == 0 ==> r == Err::<Vec<u8>, BuildError>(
                BuildError::Configuration { pack_format: 0 },
            ),
            self@.pack_format > 0 && all_fit(self@.entries()) ==> r is Ok,
            self@.pack_format > 0 ==> match r {
                Ok(bytes) => all_fit(self@.entries()) && bytes@ == stored_archive(self@.entries()),
                Err(e) => exists|i: int|
                    {
                        &&& #[trigger] first_unfit(self@.entries(), i)
                        &&& e.subject() == self@.entries()[i].0
                        &&& e is PathTooLong <==> !path_fits(self@.entries()[i].0)
                        &&& e is PathTooLong || e is SinkWrite
                    },
            },
    {
        if self.pack_format == 0 {
            return Err(BuildError::Configuration { pack_format: 0 });
        }
        let entries = self.entries();
        let ghost files = entry_models(entries@);
        let mut writer = ArchiveWriter::new();
        let mut i: usize = 0;
        assert(archive_entries(writer) =~= files.take(0));
        while i < entries.len()
            invariant
                i <= entries.len(),
                self@.pack_format > 0,
                files == entry_models(entries@),
                files == self@.entries(),
                archive_open(writer),
                archive_entries(writer) == files.take(i as int),
                all_fit(files.take(i as int)),
            decreases entries.len() - i,
        {
            let entry = &entries[i];
            let written = Component::write_file(
                &mut writer,
                entry.path.as_str(),
                entry.content.as_slice(),
            );
            match written {
                Ok(()) => {},
                Err(e) => {
                    assert(first_unfit(files, i as int));
                    return Err(e);
                },
            }
            assert(files.take(i + 1) =~= files.take(i as int).push(files[i as int]));
            i += 1;
        }
        assert(files.take(i as int) =~= files);
        writer.finish()
    }
}

proof fn lemma_components_before(namespaces: Seq<NamespaceModel>, n: int)
    requires
        0 <= n <= namespaces.len(),
    ensures
        components_before(namespaces, n) == namespaces.map_values(
            |m: NamespaceModel| m.entries(),
        ).take(n).flatten().len(),
    decreases n,
{
    let runs = namespaces.map_values(|m: NamespaceModel| m.entries());
    if n > 0 {
        lemma_components_before(namespaces, n - 1);
        assert(runs.take(n) =~= runs.take(n - 1).push(runs[n - 1]));
        runs.take(n - 1).lemma_flatten_push(runs[n - 1]);
    } else {
        assert(runs.take(0) =~= Seq::<Seq<FileModel>>::empty());
    }
}

/// Every component is handed to the archive, at its place: what is handed
/// over there is the component's entry path and its payload, byte for byte.
pub proof fn lemma_component_is_handed_over(pack: PackModel, n: int, c: int)
    requires
        0 <= n < pack.namespaces.len(),
        0 <= c < pack.namespaces[n].components.len(),
    ensures
        0 < pack.position(n, c) < pack.raw_entries().len() - 2,
        pack.raw_entries()[pack.position(n, c)] == (
            pack.namespaces[n].components[c].entry_path(pack.namespaces[n].name),
            pack.namespaces[n].components[c].content,
        ),
{
    let runs = pack.namespaces.map_values(|m: NamespaceModel| m.entries());
    let before = runs.take(n);
    let after = runs.skip(n + 1);
    lemma_components_before(pack.namespaces, n);
    assert(runs =~= before.push(runs[n]) + after);
    lemma_flatten_concat(before.push(runs[n]), after);
    before.lemma_flatten_push(runs[n]);
    assert(runs.flatten()[before.flatten().len() + c] == runs[n][c]);
}

/// Every component has its file in the archive, unless a later entry takes
/// its path: the file lies at the component's entry path and holds the
/// component's payload, byte for byte.
pub proof fn lemma_component_has_its_file(pack: PackModel, n: int, c: int)
    requires
        0 <= n < pack.namespaces.len(),
        0 <= c < pack.namespaces[n].components.len(),
        !superseded(pack.raw_entries(), pack.position(n, c)),
    ensures
        pack.entries().contains(
            (
                pack.namespaces[n].components[c].entry_path(pack.namespaces[n].name),
                pack.namespaces[n].components[c].content,
            ),
        ),
{
    lemma_component_is_handed_over(pack, n, c);
    lemma_keep_last_keeps_last(pack.raw_entries(), pack.position(n, c));
}

/// The file of a script or a JSON document holds the text and nothing else:
/// where the payload of a component is the UTF-8 form of `text`, and no
/// later entry takes the component's path, the archive has a file at the
/// component's entry path whose bytes are valid UTF-8 and read back as
/// `text`.
pub proof fn lemma_text_file_round_trip(pack: PackModel, n: int, c: int, text: Seq<char>)
    requires
        0 <= n < pack.namespaces.len(),
        0 <= c < pack.namespaces[n].components.len(),
        pack.namespaces[n].components[c].content == encode_utf8(text),
        !superseded(pack.raw_entries(), pack.position(n, c)),
    ensures
        pack.entries().contains(
            (
                pack.namespaces[n].components[c].entry_path(pack.namespaces[n].name),
                encode_utf8(text),
            ),
        ),
        valid_utf8(encode_utf8(text)),
        decode_utf8(encode_utf8(text)) == text,
{
    lemma_component_has_its_file(pack, n, c);
    encode_utf8_valid_utf8(text);
    encode_utf8_decode_utf8(text);
}

/// No two files of a pack's archive have the same path.
pub proof fn lemma_entries_distinct(pack: PackModel)
    ensures
        distinct_paths(pack.entries()),
{
    lemma_keep_last_distinct(pack.raw_entries());
}

/// Where no two of the entries that are handed over have the same path, all
/// of them are files of the archive, in the order of the hand-over.
pub proof fn lemma_entries_without_collision(pack: PackModel)
    requires
        distinct_paths(pack.raw_entries()),
    ensures
        pack.entries() == pack.raw_entries(),
{
    lemma_keep_last_of_distinct(pack.raw_entries());
}

} // verus!
