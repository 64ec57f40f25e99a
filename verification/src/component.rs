use vstd::prelude::*;
use vstd::utf8::encode_utf8;

use crate::archive::{fits, path_fits, MAX_PATH_BYTES};
use crate::error::BuildError;
use crate::trusted::{
    archive_entries, archive_open, gzip, gzip_stream, start_file, tree_bytes, write_all,
    write_tree, ArchiveWriter,
};

verus! {

/// What a payload is made of, which decides the file extension of its entry.
#[derive(Clone, Copy, Debug, PartialEq, Eq, Structural)]
pub enum PayloadKind {
    /// A plain-text command script.
    Script,
    /// A JSON document, kept as the text the caller supplied.
    Json,
    /// A binary tree document.
    Tree,
}

impl PayloadKind {
    /// The file extension, with its leading dot.
    pub open spec fn extension(self) -> Seq<char> {
        match self {
            PayloadKind::Script => ".mcfunction"@,
            PayloadKind::Json => ".json"@,
            PayloadKind::Tree => ".nbt"@,
        }
    }

    /// The file extension, with its leading dot.
    pub fn suffix(self) -> (r: &'static str)
        ensures
            r@ == self.extension(),
    {
        match self {
            PayloadKind::Script => ".mcfunction",
            PayloadKind::Json => ".json",
            PayloadKind::Tree => ".nbt",
        }
    }
}

/// The closed set of content categories. All but the last three have a
/// directory of their own below the namespace; the last three are the generic
/// ones, whose components lie wherever their path says.
#[derive(Clone, Copy, Debug, PartialEq, Eq, Structural)]
pub enum Category {
    Advancement,
    Function,
    ItemModifier,
    LootTable,
    Predicate,
    Recipe,
    Structure,
    TagBlock,
    TagEntityType,
    TagFluid,
    TagFunction,
    TagGameEvent,
    TagItem,
    Dimension,
    DimensionType,
    WorldGenBiome,
    WorldGenConfiguredCarver,
    WorldGenConfiguredFeature,
    WorldGenConfiguredStructureFeature,
    WorldGenConfiguredSurfaceBuilder,
    WorldGenNoiseSettings,
    WorldGenPlacedFeature,
    WorldGenProcessorList,
    WorldGenTemplatePool,
    Json,
    Nbt,
    MCFunction,
}

impl Category {
    /// Whether components of this category are placed by their path alone.
    pub open spec fn is_generic(self) -> bool {
        self is Json || self is Nbt || self is MCFunction
    }

    /// The directory below the namespace that holds the category's files; the
    /// empty string for the generic categories.
    pub open spec fn directory(self) -> Seq<char> {
        match self {
            Category::Advancement => "advancements"@,
            Category::Function => "functions"@,
            Category::ItemModifier => "item_modifiers"@,
            Category::LootTable => "loot_tables"@,
            Category::Predicate => "predicates"@,
            Category::Recipe => "recipes"@,
            Category::Structure => "structures"@,
            Category::TagBlock => "tags/blocks"@,
            Category::TagEntityType => "tags/entity_types"@,
            Category::TagFluid => "tags/fluids"@,
            Category::TagFunction => "tags/functions"@,
            Category::TagGameEvent => "tags/game_events"@,
            Category::TagItem => "tags/items"@,
            Category::Dimension => "dimension"@,
            Category::DimensionType => "dimension_type"@,
            Category::WorldGenBiome => "worldgen/biome"@,
            Category::WorldGenConfiguredCarver => "worldgen/configured_carver"@,
            Category::WorldGenConfiguredFeature => "worldgen/configured_feature"@,
            Category::WorldGenConfiguredStructureFeature => {
                "worldgen/configured_structure_feature"@
            },
            Category::WorldGenConfiguredSurfaceBuilder => "worldgen/configured_surface_builder"@,
            Category::WorldGenNoiseSettings => "worldgen/noise_settings"@,
            Category::WorldGenPlacedFeature => "worldgen/placed_feature"@,
            Category::WorldGenProcessorList => "worldgen/processor_list"@,
            Category::WorldGenTemplatePool => "worldgen/template_pool"@,
            Category::Json | Category::Nbt | Category::MCFunction => ""@,
        }
    }

    /// What the payloads of this category are made of.
    pub open spec fn kind(self) -> PayloadKind {
        match self {
            Category::Function | Category::MCFunction => PayloadKind::Script,
            Category::Structure | Category::Nbt => PayloadKind::Tree,
            _ => PayloadKind::Json,
        }
    }

    /// Whether components of this category are placed by their path alone.
    pub fn generic(self) -> (r: bool)
        ensures
            r == self.is_generic(),
    {
        match self {
            Category::Json | Category::Nbt | Category::MCFunction => true,
            _ => false,
        }
    }

    /// The directory below the namespace that holds the category's files; the
    /// empty string for the generic categories.
    pub fn folder(self) -> (r: &'static str)
        ensures
            r@ == self.directory(),
    {
        match self {
            Category::Advancement => "advancements",
            Category::Function => "functions",
            Category::ItemModifier => "item_modifiers",
            Category::LootTable => "loot_tables",
            Category::Predicate => "predicates",
            Category::Recipe => "recipes",
            Category::Structure => "structures",
            Category::TagBlock => "tags/blocks",
            Category::TagEntityType => "tags/entity_types",
            Category::TagFluid => "tags/fluids",
            Category::TagFunction => "tags/functions",
            Category::TagGameEvent => "tags/game_events",
            Category::TagItem => "tags/items",
            Category::Dimension => "dimension",
            Category::DimensionType => "dimension_type",
            Category::WorldGenBiome => "worldgen/biome",
            Category::WorldGenConfiguredCarver => "worldgen/configured_carver",
            Category::WorldGenConfiguredFeature => "worldgen/configured_feature",
            Category::WorldGenConfiguredStructureFeature => "worldgen/configured_structure_feature",
            Category::WorldGenConfiguredSurfaceBuilder => "worldgen/configured_surface_builder",
            Category::WorldGenNoiseSettings => "worldgen/noise_settings",
            Category::WorldGenPlacedFeature => "worldgen/placed_feature",
            Category::WorldGenProcessorList => "worldgen/processor_list",
            Category::WorldGenTemplatePool => "worldgen/template_pool",
            Category::Json | Category::Nbt | Category::MCFunction => "",
        }
    }

    /// What the payloads of this category are made of.
    pub fn payload_kind(self) -> (r: PayloadKind)
        ensures
            r == self.kind(),
    {
        match self {
            Category::Function | Category::MCFunction => PayloadKind::Script,
            Category::Structure | Category::Nbt => PayloadKind::Tree,
            _ => PayloadKind::Json,
        }
    }
}

/// Represents a .nbt file
pub struct Nbt {
    pub content: Vec<u8>,
    pub path: String,
}

/// Represents a .mcfunction file
pub struct MCFunction {
    pub content: Vec<u8>,
    pub path: String,
    pub ran_on_load: bool,
    pub ran_on_tick: bool,
}

/// Represents a .json file
pub struct Json {
    pub content: Vec<u8>,
    pub path: String,
}

/// One content item, destined for exactly one archive entry.
pub enum Component {
    /// A file in the `advancements` directory
    Advancement(Json),
    /// A file in the `functions` directory
    Function(MCFunction),
    /// A file in the `item_modifiers` directory
    ItemModifier(Json),
    /// A file in the `loot_tables` directory
    LootTable(Json),
    /// A file in the `predicates` directory
    Predicate(Json),
    /// A file in the `recipes` directory
    Recipe(Json),
    /// A file in the `structures` directory
    Structure(Nbt),
    /// A file in the `tags/blocks` directory
    TagBlock(Json),
    /// A file in the `tags/entity_types` directory
    TagEntityType(Json),
    /// A file in the `tags/fluids` directory
    TagFluid(Json),
    /// A file in the `tags/functions` directory
    TagFunction(Json),
    /// A file in the `tags/game_events` directory
    TagGameEvent(Json),
    /// A file in the `tags/items` directory
    TagItem(Json),
    /// A file in the `dimension` directory
    Dimension(Json),
    /// A file in the `dimension_type` directory
    DimensionType(Json),
    /// A file in the `worldgen/biome` directory
    WorldGenBiome(Json),
    /// A file in the `worldgen/configured_carver` directory
    WorldGenConfiguredCarver(Json),
    /// A file in the `worldgen/configured_feature` directory
    WorldGenConfiguredFeature(Json),
    /// A file in the `worldgen/configured_structure_feature` directory
    WorldGenConfiguredStructureFeature(Json),
    /// A file in the `worldgen/configured_surface_builder` directory
    WorldGenConfiguredSurfaceBuilder(Json),
    /// A file in the `worldgen/noise_settings` directory
    WorldGenNoiseSettings(Json),
    /// A file in the `worldgen/placed_feature` directory
    WorldGenPlacedFeature(Json),
    /// A file in the `worldgen/processor_list` directory
    WorldGenProcessorList(Json),
    /// A file in the `worldgen/template_pool` directory
    WorldGenTemplatePool(Json),
    /// A generic .json file that can be anywhere
    Json(Json),
    /// A generic .nbt file that can be anywhere
    Nbt(Nbt),
    /// A generic .mcfunction file that can be anywhere
    MCFunction(MCFunction),
}

/// What a component is, as far as the archive is concerned: its category,
/// its path below the category's directory, the bytes of its payload, and the
/// two phases in which a script runs (both false for anything but a script).
pub ghost struct ComponentModel {
    pub category: Category,
    pub path: Seq<char>,
    pub content: Seq<u8>,
    pub ran_on_load: bool,
    pub ran_on_tick: bool,
}

/// A JSON document as a component of `category`.
pub open spec fn json_model(category: Category, it: Json) -> ComponentModel {
    ComponentModel {
        category,
        path: it.path@,
        content: it.content@,
        ran_on_load: false,
        ran_on_tick: false,
    }
}

/// A tree document as a component of `category`.
pub open spec fn tree_model(category: Category, it: Nbt) -> ComponentModel {
    ComponentModel {
        category,
        path: it.path@,
        content: it.content@,
        ran_on_load: false,
        ran_on_tick: false,
    }
}

/// A script as a component of `category`.
pub open spec fn script_model(category: Category, it: MCFunction) -> ComponentModel {
    ComponentModel {
        category,
        path: it.path@,
        content: it.content@,
        ran_on_load: it.ran_on_load,
        ran_on_tick: it.ran_on_tick,
    }
}

impl ComponentModel {
    /// The path of the component's entry in the archive, for a component of
    /// the namespace `namespace`: `data/<namespace>/<directory>/<path><ext>`,
    /// without the directory for a generic component.
    pub open spec fn entry_path(self, namespace: Seq<char>) -> Seq<char> {
        if self.category.is_generic() {
            "data/"@ + namespace + "/"@ + self.path + self.category.kind().extension()
        } else {
            "data/"@ + namespace + "/"@ + self.category.directory() + "/"@ + self.path
                + self.category.kind().extension()
        }
    }
}

impl View for Component {
    type V = ComponentModel;

    open spec fn view(&self) -> ComponentModel {
        match *self {
            Component::Advancement(it) => json_model(Category::Advancement, it),
            Component::Function(it) => script_model(Category::Function, it),
            Component::ItemModifier(it) => json_model(Category::ItemModifier, it),
            Component::LootTable(it) => json_model(Category::LootTable, it),
            Component::Predicate(it) => json_model(Category::Predicate, it),
            Component::Recipe(it) => json_model(Category::Recipe, it),
            Component::Structure(it) => tree_model(Category::Structure, it),
            Component::TagBlock(it) => json_model(Category::TagBlock, it),
            Component::TagEntityType(it) => json_model(Category::TagEntityType, it),
            Component::TagFluid(it) => json_model(Category::TagFluid, it),
            Component::TagFunction(it) => json_model(Category::TagFunction, it),
            Component::TagGameEvent(it) => json_model(Category::TagGameEvent, it),
            Component::TagItem(it) => json_model(Category::TagItem, it),
            Component::Dimension(it) => json_model(Category::Dimension, it),
            Component::DimensionType(it) => json_model(Category::DimensionType, it),
            Component::WorldGenBiome(it) => json_model(Category::WorldGenBiome, it),
            Component::WorldGenConfiguredCarver(it) => json_model(
                Category::WorldGenConfiguredCarver,
                it,
            ),
            Component::WorldGenConfiguredFeature(it) => json_model(
                Category::WorldGenConfiguredFeature,
                it,
            ),
            Component::WorldGenConfiguredStructureFeature(it) => json_model(
                Category::WorldGenConfiguredStructureFeature,
                it,
            ),
            Component::WorldGenConfiguredSurfaceBuilder(it) => json_model(
                Category::WorldGenConfiguredSurfaceBuilder,
                it,
            ),
            Component::WorldGenNoiseSettings(it) => json_model(Category::WorldGenNoiseSettings, it),
            Component::WorldGenPlacedFeature(it) => json_model(Category::WorldGenPlacedFeature, it),
            Component::WorldGenProcessorList(it) => json_model(Category::WorldGenProcessorList, it),
            Component::WorldGenTemplatePool(it) => json_model(Category::WorldGenTemplatePool, it),
            Component::Json(it) => json_model(Category::Json, it),
            Component::Nbt(it) => tree_model(Category::Nbt, it),
            Component::MCFunction(it) => script_model(Category::MCFunction, it),
        }
    }
}

impl Nbt {
    /// Creates a new nbt file that is gzipped (useful for structures)
    pub fn new_gz(content: nbt::CompoundTag, path: &str) -> (r: Result<Self, BuildError>)
        ensures
            match r {
                Ok(file) => {
                    &&& tree_bytes(content) matches Some(plain)
                    &&& gzip_stream(plain) == Some(file.content@)
                    &&& file.path@ == path@
                },
                Err(e) => {
                    &&& tree_bytes(content) matches Some(plain) ==> gzip_stream(plain) is None
                    &&& e is Encoding
                    &&& e.subject() == path@
                },
            },
    {
        let plain = match write_tree(&content) {
            Ok(bytes) => bytes,
            Err(e) => {
                return Err(BuildError::encoder_failed(path, &e));
            },
        };
        match gzip(plain.as_slice()) {
            Ok(bytes) => Ok(Self::from_raw(bytes, path)),
            Err(e) => Err(BuildError::encoder_failed(path, &e)),
        }
    }

    /// Creates an uncompressed nbt file
    pub fn new(content: nbt::CompoundTag, path: &str) -> (r: Result<Self, BuildError>)
        ensures
            match r {
                Ok(file) => tree_bytes(content) == Some(file.content@) && file.path@ == path@,
                Err(e) => tree_bytes(content) is None && e is Encoding && e.subject() == path@,
            },
    {
        match write_tree(&content) {
            Ok(bytes) => Ok(Self::from_raw(bytes, path)),
            Err(e) => Err(BuildError::encoder_failed(path, &e)),
        }
    }

    /// Creates a NBT file from raw bytes
    pub fn from_raw(bytes: Vec<u8>, path: &str) -> (r: Self)
        ensures
            r.content@ == bytes@,
            r.path@ == path@,
    {
        Self { content: bytes, path: path.to_string() }
    }
}

impl MCFunction {
    /// A script with the given text, stored as the text's UTF-8 bytes.
    pub fn new(content: &str, path: &str, ran_on_load: bool, ran_on_tick: bool) -> (r: Self)
        ensures
            r.content@ == encode_utf8(content@),
            r.path@ == path@,
            r.ran_on_load == ran_on_load,
            r.ran_on_tick == ran_on_tick,
    {
        Self { content: content.as_bytes_vec(), path: path.to_string(), ran_on_load, ran_on_tick }
    }
}

impl Json {
    /// A JSON document with the given text, stored as the text's UTF-8 bytes.
    /// The text is not parsed.
    pub fn new(content: &str, path: &str) -> (r: Self)
        ensures
            r.content@ == encode_utf8(content@),
            r.path@ == path@,
    {
        Self { content: content.as_bytes_vec(), path: path.to_string() }
    }
}

impl Clone for Nbt {
    fn clone(&self) -> (r: Self)
        ensures
            r.content@ == self.content@,
            r.path@ == self.path@,
    {
        Self { content: self.content.clone(), path: self.path.clone() }
    }
}

impl Clone for MCFunction {
    fn clone(&self) -> (r: Self)
        ensures
            r.content@ == self.content@,
            r.path@ == self.path@,
            r.ran_on_load == self.ran_on_load,
            r.ran_on_tick == self.ran_on_tick,
    {
        Self {
            content: self.content.clone(),
            path: self.path.clone(),
            ran_on_load: self.ran_on_load,
            ran_on_tick: self.ran_on_tick,
        }
    }
}

impl Clone for Json {
    fn clone(&self) -> (r: Self)
        ensures
            r.content@ == self.content@,
            r.path@ == self.path@,
    {
        Self { content: self.content.clone(), path: self.path.clone() }
    }
}

impl Clone for Component {
    fn clone(&self) -> (r: Self)
        ensures
            r@ == self@,
    {
        match self {
            Component::Advancement(it) => Component::Advancement(it.clone()),
            Component::Function(it) => Component::Function(it.clone()),
            Component::ItemModifier(it) => Component::ItemModifier(it.clone()),
            Component::LootTable(it) => Component::LootTable(it.clone()),
            Component::Predicate(it) => Component::Predicate(it.clone()),
            Component::Recipe(it) => Component::Recipe(it.clone()),
            Component::Structure(it) => Component::Structure(it.clone()),
            Component::TagBlock(it) => Component::TagBlock(it.clone()),
            Component::TagEntityType(it) => Component::TagEntityType(it.clone()),
            Component::TagFluid(it) => Component::TagFluid(it.clone()),
            Component::TagFunction(it) => Component::TagFunction(it.clone()),
            Component::TagGameEvent(it) => Component::TagGameEvent(it.clone()),
            Component::TagItem(it) => Component::TagItem(it.clone()),
            Component::Dimension(it) => Component::Dimension(it.clone()),
            Component::DimensionType(it) => Component::DimensionType(it.clone()),
            Component::WorldGenBiome(it) => Component::WorldGenBiome(it.clone()),
            Component::WorldGenConfiguredCarver(it) => Component::WorldGenConfiguredCarver(
                it.clone(),
            ),
            Component::WorldGenConfiguredFeature(it) => Component::WorldGenConfiguredFeature(
                it.clone(),
            ),
            Component::WorldGenConfiguredStructureFeature(it) => {
                Component::WorldGenConfiguredStructureFeature(it.clone())
            },
            Component::WorldGenConfiguredSurfaceBuilder(it) => {
                Component::WorldGenConfiguredSurfaceBuilder(it.clone())
            },
            Component::WorldGenNoiseSettings(it) => Component::WorldGenNoiseSettings(it.clone()),
            Component::WorldGenPlacedFeature(it) => Component::WorldGenPlacedFeature(it.clone()),
            Component::WorldGenProcessorList(it) => Component::WorldGenProcessorList(it.clone()),
            Component::WorldGenTemplatePool(it) => Component::WorldGenTemplatePool(it.clone()),
            Component::Json(it) => Component::Json(it.clone()),
            Component::Nbt(it) => Component::Nbt(it.clone()),
            Component::MCFunction(it) => Component::MCFunction(it.clone()),
        }
    }
}

impl Component {
    /// The category of the component.
    pub fn category(&self) -> (r: Category)
        ensures
            r == self@.category,
    {
        match self {
            Component::Advancement(_) => Category::Advancement,
            Component::Function(_) => Category::Function,
            Component::ItemModifier(_) => Category::ItemModifier,
            Component::LootTable(_) => Category::LootTable,
            Component::Predicate(_) => Category::Predicate,
            Component::Recipe(_) => Category::Recipe,
            Component::Structure(_) => Category::Structure,
            Component::TagBlock(_) => Category::TagBlock,
            Component::TagEntityType(_) => Category::TagEntityType,
            Component::TagFluid(_) => Category::TagFluid,
            Component::TagFunction(_) => Category::TagFunction,
            Component::TagGameEvent(_) => Category::TagGameEvent,
            Component::TagItem(_) => Category::TagItem,
            Component::Dimension(_) => Category::Dimension,
            Component::DimensionType(_) => Category::DimensionType,
            Component::WorldGenBiome(_) => Category::WorldGenBiome,
            Component::WorldGenConfiguredCarver(_) => Category::WorldGenConfiguredCarver,
            Component::WorldGenConfiguredFeature(_) => Category::WorldGenConfiguredFeature,
            Component::WorldGenConfiguredStructureFeature(_) => {
                Category::WorldGenConfiguredStructureFeature
            },
            Component::WorldGenConfiguredSurfaceBuilder(_) => {
                Category::WorldGenConfiguredSurfaceBuilder
            },
            Component::WorldGenNoiseSettings(_) => Category::WorldGenNoiseSettings,
            Component::WorldGenPlacedFeature(_) => Category::WorldGenPlacedFeature,
            Component::WorldGenProcessorList(_) => Category::WorldGenProcessorList,
            Component::WorldGenTemplatePool(_) => Category::WorldGenTemplatePool,
            Component::Json(_) => Category::Json,
            Component::Nbt(_) => Category::Nbt,
            Component::MCFunction(_) => Category::MCFunction,
        }
    }

    /// The component's own path, below the directory of its category.
    pub fn item_path(&self) -> (r: &String)
        ensures
            r@ == self@.path,
    {
        match self {
            Component::Advancement(it)
            | Component::ItemModifier(it)
            | Component::LootTable(it)
            | Component::Predicate(it)
            | Component::Recipe(it)
            | Component::TagBlock(it)
            | Component::TagEntityType(it)
            | Component::TagFluid(it)
            | Component::TagFunction(it)
            | Component::TagGameEvent(it)
            | Component::TagItem(it)
            | Component::Dimension(it)
            | Component::DimensionType(it)
            | Component::WorldGenBiome(it)
            | Component::WorldGenConfiguredCarver(it)
            | Component::WorldGenConfiguredFeature(it)
            | Component::WorldGenConfiguredStructureFeature(it)
            | Component::WorldGenConfiguredSurfaceBuilder(it)
            | Component::WorldGenNoiseSettings(it)
            | Component::WorldGenPlacedFeature(it)
            | Component::WorldGenProcessorList(it)
            | Component::WorldGenTemplatePool(it)
            | Component::Json(it) => &it.path,
            Component::Structure(it) | Component::Nbt(it) => &it.path,
            Component::Function(it) | Component::MCFunction(it) => &it.path,
        }
    }

    /// The bytes of the component's payload.
    pub fn content(&self) -> (r: &Vec<u8>)
        ensures
            r@ == self@.content,
    {
        match self {
            Component::Advancement(it)
            | Component::ItemModifier(it)
            | Component::LootTable(it)
            | Component::Predicate(it)
            | Component::Recipe(it)
            | Component::TagBlock(it)
            | Component::TagEntityType(it)
            | Component::TagFluid(it)
            | Component::TagFunction(it)
            | Component::TagGameEvent(it)
            | Component::TagItem(it)
            | Component::Dimension(it)
            | Component::DimensionType(it)
            | Component::WorldGenBiome(it)
            | Component::WorldGenConfiguredCarver(it)
            | Component::WorldGenConfiguredFeature(it)
            | Component::WorldGenConfiguredStructureFeature(it)
            | Component::WorldGenConfiguredSurfaceBuilder(it)
            | Component::WorldGenNoiseSettings(it)
            | Component::WorldGenPlacedFeature(it)
            | Component::WorldGenProcessorList(it)
            | Component::WorldGenTemplatePool(it)
            | Component::Json(it) => &it.content,
            Component::Structure(it) | Component::Nbt(it) => &it.content,
            Component::Function(it) | Component::MCFunction(it) => &it.content,
        }
    }

    /// The directory of the component's category, empty for a generic one.
    pub fn path(&self) -> (r: &str)
        ensures
            r@ == self@.category.directory(),
    {
        self.category().folder()
    }

    /// Adds the component's entry to the archive: a file at the component's
    /// entry path that holds the component's payload. An open archive takes
    /// every entry that fits; see `write_file` for the others.
    pub fn write_to_file(&self, writer: &mut ArchiveWriter, namespace: &String) -> (r: Result<
        (),
        BuildError,
    >)
        ensures
            archive_open(*old(writer)) && fits((self@.entry_path(namespace@), self@.content))
                ==> r is Ok,
            match r {
                Ok(()) => {
                    &&& fits((self@.entry_path(namespace@), self@.content))
                    &&& archive_open(*final(writer))
                    &&& archive_entries(*final(writer)) == archive_entries(*old(writer)).push(
                        (self@.entry_path(namespace@), self@.content),
                    )
                },
                Err(e) => {
                    &&& e.subject() == self@.entry_path(namespace@)
                    &&& e is PathTooLong <==> !path_fits(self@.entry_path(namespace@))
                    &&& e is PathTooLong || e is SinkWrite
                    &&& e is PathTooLong ==> *final(writer) == *old(writer)
                },
            },
    {
        let path = self.archive_entry_path(namespace.as_str());
        Self::write_file(writer, path.as_str(), self.content().as_slice())
    }

    /// Adds a file to the archive: starts it at `path` and writes `contents`
    /// to it. An open archive takes every file that fits, and stays open. A
    /// path of more than 65,535 bytes is refused before the archive is
    /// touched; contents of more than 4,294,967,295 bytes are refused by the
    /// archive, as is everything once it is no longer open.
    pub fn write_file(writer: &mut ArchiveWriter, path: &str, contents: &[u8]) -> (r: Result<
        (),
        BuildError,
    >)
        ensures
            archive_open(*old(writer)) && fits((path@, contents@)) ==> r is Ok,
            match r {
                Ok(()) => {
                    &&& fits((path@, contents@))
                    &&& archive_open(*final(writer))
                    &&& archive_entries(*final(writer)) == archive_entries(*old(writer)).push(
                        (path@, contents@),
                    )
                },
                Err(e) => {
                    &&& e.subject() == path@
                    &&& e is PathTooLong <==> !path_fits(path@)
                    &&& e is PathTooLong || e is SinkWrite
                    &&& e is PathTooLong ==> *final(writer) == *old(writer)
                },
            },
    {
        if path.as_bytes().len() > MAX_PATH_BYTES {
            return Err(BuildError::PathTooLong { path: path.to_string() });
        }
        match start_file(writer, path) {
            Ok(()) => {},
            Err(e) => {
                return Err(BuildError::sink_refused(path, &e));
            },
        }
        match write_all(writer, contents) {
            Ok(()) => {
                assert(archive_entries(*writer) =~= archive_entries(*old(writer)).push(
                    (path@, contents@),
                ));
                Ok(())
            },
            Err(e) => Err(BuildError::sink_failed(path, &e)),
        }
    }

    /// The path of the component's entry in the archive.
    pub fn archive_entry_path(&self, namespace: &str) -> (r: String)
        ensures
            r@ == self@.entry_path(namespace@),
    {
        let category = self.category();
        let mut entry = "data/".to_string();
        entry.append(namespace);
        entry.append("/");
        if !category.generic() {
            entry.append(category.folder());
            entry.append("/");
        }
        entry.append(self.item_path().as_str());
        entry.append(category.payload_kind().suffix());
        entry
    }
}

/// The path of a component's entry depends on nothing but the namespace, the
/// category and the component's own path: two components that agree on these
/// three get the same entry path, whatever their payloads and flags.
pub proof fn lemma_entry_path_determined(
    a: ComponentModel,
    namespace_a: Seq<char>,
    b: ComponentModel,
    namespace_b: Seq<char>,
)
    requires
        namespace_a == namespace_b,
        a.category == b.category,
        a.path == b.path,
    ensures
        a.entry_path(namespace_a) == b.entry_path(namespace_b),
{
}

/// What stands between the same beginning and the same end of one text is
/// the same.
proof fn lemma_middle_is_determined(
    head: Seq<char>,
    a: Seq<char>,
    b: Seq<char>,
    tail: Seq<char>,
)
    requires
        head + a + tail == head + b + tail,
    ensures
        a == b,
{
    let with_a = head + a + tail;
    let with_b = head + b + tail;
    assert(with_a.len() == head.len() + a.len() + tail.len());
    assert(with_b.len() == head.len() + b.len() + tail.len());
    assert forall|i: int| 0 <= i < a.len() implies a[i] == b[i] by {
        assert(with_a[head.len() + i] == a[i]);
        assert(with_b[head.len() + i] == b[i]);
    }
    assert(a =~= b);
}

/// Namespaces do not collide: components of one category and with one path
/// get different entry paths in different namespaces.
pub proof fn lemma_entry_path_tells_namespaces_apart(
    a: ComponentModel,
    namespace_a: Seq<char>,
    b: ComponentModel,
    namespace_b: Seq<char>,
)
    requires
        a.category == b.category,
        a.path == b.path,
        namespace_a != namespace_b,
    ensures
        a.entry_path(namespace_a) != b.entry_path(namespace_b),
{
    let tail = if a.category.is_generic() {
        "/"@ + a.path + a.category.kind().extension()
    } else {
        "/"@ + a.category.directory() + "/"@ + a.path + a.category.kind().extension()
    };
    assert(a.entry_path(namespace_a) =~= "data/"@ + namespace_a + tail);
    assert(b.entry_path(namespace_b) =~= "data/"@ + namespace_b + tail);
    if a.entry_path(namespace_a) == b.entry_path(namespace_b) {
        lemma_middle_is_determined("data/"@, namespace_a, namespace_b, tail);
    }
}

/// Paths do not collide: within one namespace and one category, components
/// with different paths get different entry paths.
pub proof fn lemma_entry_path_tells_paths_apart(
    a: ComponentModel,
    b: ComponentModel,
    namespace: Seq<char>,
)
    requires
        a.category == b.category,
        a.path != b.path,
    ensures
        a.entry_path(namespace) != b.entry_path(namespace),
{
    let head = if a.category.is_generic() {
        "data/"@ + namespace + "/"@
    } else {
        "data/"@ + namespace + "/"@ + a.category.directory() + "/"@
    };
    let tail = a.category.kind().extension();
    assert(a.entry_path(namespace) =~= head + a.path + tail);
    assert(b.entry_path(namespace) =~= head + b.path + tail);
    if a.entry_path(namespace) == b.entry_path(namespace) {
        lemma_middle_is_determined(head, a.path, b.path, tail);
    }
}

/// The characters by which the directories of the categories are told apart:
/// whatever follows a directory and its slash, the text starts with these.
proof fn lemma_directory_marks(category: Category, rest: Seq<char>)
    requires
        !category.is_generic(),
    ensures
        ({
            let text = category.directory() + "/"@ + rest;
            match category {
                Category::Advancement => text[0] == 'a',
                Category::Function => text[0] == 'f',
                Category::ItemModifier => text[0] == 'i',
                Category::LootTable => text[0] == 'l',
                Category::Predicate => text[0] == 'p',
                Category::Recipe => text[0] == 'r',
                Category::Structure => text[0] == 's',
                Category::TagBlock => text[0] == 't' && text[5] == 'b',
                Category::TagEntityType => text[0] == 't' && text[5] == 'e',
                Category::TagFluid => text[0] == 't' && text[5] == 'f' && text[6] == 'l',
                Category::TagFunction => text[0] == 't' && text[5] == 'f' && text[6] == 'u',
                Category::TagGameEvent => text[0] == 't' && text[5] == 'g',
                Category::TagItem => text[0] == 't' && text[5] == 'i',
                Category::Dimension => text[0] == 'd' && text[9] == '/',
                Category::DimensionType => text[0] == 'd' && text[9] == '_',
                Category::WorldGenBiome => text[0] == 'w' && text[9] == 'b',
                Category::WorldGenConfiguredCarver => text[0] == 'w' && text[9] == 'c' && text[20]
                    == 'c',
                Category::WorldGenConfiguredFeature => text[0] == 'w' && text[9] == 'c' && text[20]
                    == 'f',
                Category::WorldGenConfiguredStructureFeature => text[0] == 'w' && text[9] == 'c'
                    && text[20] == 's' && text[21] == 't',
                Category::WorldGenConfiguredSurfaceBuilder => text[0] == 'w' && text[9] == 'c'
                    && text[20] == 's' && text[21] == 'u',
                Category::WorldGenNoiseSettings => text[0] == 'w' && text[9] == 'n',
                Category::WorldGenPlacedFeature => text[0] == 'w' && text[9] == 'p' && text[10]
                    == 'l',
                Category::WorldGenProcessorList => text[0] == 'w' && text[9] == 'p' && text[10]
                    == 'r',
                Category::WorldGenTemplatePool => text[0] == 'w' && text[9] == 't',
                Category::Json | Category::Nbt | Category::MCFunction => true,
            }
        }),
{
    reveal_strlit("/");
    match category {
        Category::Advancement => reveal_strlit("advancements"),
        Category::Function => reveal_strlit("functions"),
        Category::ItemModifier => reveal_strlit("item_modifiers"),
        Category::LootTable => reveal_strlit("loot_tables"),
        Category::Predicate => reveal_strlit("predicates"),
        Category::Recipe => reveal_strlit("recipes"),
        Category::Structure => reveal_strlit("structures"),
        Category::TagBlock => reveal_strlit("tags/blocks"),
        Category::TagEntityType => reveal_strlit("tags/entity_types"),
        Category::TagFluid => reveal_strlit("tags/fluids"),
        Category::TagFunction => reveal_strlit("tags/functions"),
        Category::TagGameEvent => reveal_strlit("tags/game_events"),
        Category::TagItem => reveal_strlit("tags/items"),
        Category::Dimension => reveal_strlit("dimension"),
        Category::DimensionType => reveal_strlit("dimension_type"),
        Category::WorldGenBiome => reveal_strlit("worldgen/biome"),
        Category::WorldGenConfiguredCarver => reveal_strlit("worldgen/configured_carver"),
        Category::WorldGenConfiguredFeature => reveal_strlit("worldgen/configured_feature"),
        Category::WorldGenConfiguredStructureFeature => reveal_strlit(
            "worldgen/configured_structure_feature",
        ),
        Category::WorldGenConfiguredSurfaceBuilder => reveal_strlit(
            "worldgen/configured_surface_builder",
        ),
        Category::WorldGenNoiseSettings => reveal_strlit("worldgen/noise_settings"),
        Category::WorldGenPlacedFeature => reveal_strlit("worldgen/placed_feature"),
        Category::WorldGenProcessorList => reveal_strlit("worldgen/processor_list"),
        Category::WorldGenTemplatePool => reveal_strlit("worldgen/template_pool"),
        Category::Json | Category::Nbt | Category::MCFunction => {},
    }
}

/// Categories do not collide: within one namespace, two components of
/// different categories that have a directory of their own get different
/// entry paths, whatever their paths are.
pub proof fn lemma_entry_path_tells_categories_apart(
    a: ComponentModel,
    b: ComponentModel,
    namespace: Seq<char>,
)
    requires
        a.category != b.category,
        !a.category.is_generic(),
        !b.category.is_generic(),
    ensures
        a.entry_path(namespace) != b.entry_path(namespace),
{
    let head = "data/"@ + namespace + "/"@;
    let rest_a = a.path + a.category.kind().extension();
    let rest_b = b.path + b.category.kind().extension();
    let tail_a = a.category.directory() + "/"@ + rest_a;
    let tail_b = b.category.directory() + "/"@ + rest_b;
    assert(a.entry_path(namespace) =~= head + tail_a);
    assert(b.entry_path(namespace) =~= head + tail_b);
    lemma_directory_marks(a.category, rest_a);
    lemma_directory_marks(b.category, rest_b);
    if a.entry_path(namespace) == b.entry_path(namespace) {
        assert(head + tail_a + Seq::<char>::empty() =~= head + tail_b + Seq::<char>::empty());
        lemma_middle_is_determined(head, tail_a, tail_b, Seq::empty());
    }
}

} // verus!
