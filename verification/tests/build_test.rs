use std::io::{Cursor, Read};

use datapack::archive::ArchiveEntry;
use datapack::component::{Component, Json, MCFunction, Nbt};
use datapack::error::BuildError;
use datapack::namespace::Namespace;
use datapack::DataPackBuilder;

fn file_names(bytes: &Vec<u8>) -> Vec<String> {
    let mut archive = zip::ZipArchive::new(Cursor::new(bytes.clone())).unwrap();
    let mut names: Vec<String> = Vec::new();
    for index in 0..archive.len() {
        names.push(archive.by_index(index).unwrap().name().to_string());
    }
    names
}

fn file_bytes(bytes: &Vec<u8>, name: &str) -> Vec<u8> {
    let mut archive = zip::ZipArchive::new(Cursor::new(bytes.clone())).unwrap();
    let mut file = archive.by_name(name).unwrap();
    let mut content: Vec<u8> = Vec::new();
    file.read_to_end(&mut content).unwrap();
    content
}

fn plan(entries: &Vec<ArchiveEntry>) -> Vec<(String, Vec<u8>)> {
    entries.iter().map(|e| (e.path.clone(), e.content.clone())).collect()
}

const EMPTY_TAGS: &str = "{\n\t\"values\": [\n\n\t]\n}";

#[test]
fn build() {
    let bytes = DataPackBuilder::new()
        .add_namespace(
            Namespace::new("test")
                .add_component(Component::Function(MCFunction::new("say hi", &String::from("hello"), true, false))),
        )
        .add_namespace(
            Namespace::new("test2")
                .add_component(Component::Function(MCFunction::new("say hi2", "custom/hello", true, false))),
        )
        .build()
        .unwrap();

    assert_eq!(
        file_names(&bytes),
        vec![
            "pack.mcmeta",
            "data/test/functions/hello.mcfunction",
            "data/test2/functions/custom/hello.mcfunction",
            "data/minecraft/tags/functions/load.json",
            "data/minecraft/tags/functions/tick.json",
        ]
    );
    assert_eq!(file_bytes(&bytes, "data/test/functions/hello.mcfunction"), b"say hi".to_vec());
    assert_eq!(file_bytes(&bytes, "data/test2/functions/custom/hello.mcfunction"), b"say hi2".to_vec());
    assert_eq!(
        file_bytes(&bytes, "data/minecraft/tags/functions/load.json"),
        b"{\n\t\"values\": [\n\t\t\"test:hello\",\n\t\t\"test2:custom/hello\"\n\t]\n}".to_vec()
    );
    assert_eq!(file_bytes(&bytes, "data/minecraft/tags/functions/tick.json"), EMPTY_TAGS.as_bytes().to_vec());
}

#[test]
fn one_script_that_runs_on_load() {
    let mut builder = DataPackBuilder::new();
    builder.add_namespace(
        Namespace::new("test").add_component(Component::Function(MCFunction::new("say hi", "hello", true, false))),
    );
    let bytes = builder.build().unwrap();

    assert_eq!(file_bytes(&bytes, "data/test/functions/hello.mcfunction"), b"say hi".to_vec());
    let load = String::from_utf8(file_bytes(&bytes, "data/minecraft/tags/functions/load.json")).unwrap();
    assert_eq!(load, "{\n\t\"values\": [\n\t\t\"test:hello\"\n\t]\n}");
    let compact: String = load.chars().filter(|c| !c.is_whitespace()).collect();
    assert_eq!(compact, "{\"values\":[\"test:hello\"]}");
    let tick = String::from_utf8(file_bytes(&bytes, "data/minecraft/tags/functions/tick.json")).unwrap();
    assert_eq!(tick, EMPTY_TAGS);
    let compact: String = tick.chars().filter(|c| !c.is_whitespace()).collect();
    assert_eq!(compact, "{\"values\":[]}");
}

#[test]
fn same_generic_path_in_two_namespaces() {
    let mut builder = DataPackBuilder::new();
    builder
        .add_namespace(
            Namespace::new("test").add_component(Component::Json(Json::new("{\"a\": 1}", "custom/hello"))),
        )
        .add_namespace(
            Namespace::new("test2").add_component(Component::Json(Json::new("{\"b\": 2}", "custom/hello"))),
        );
    let bytes = builder.build().unwrap();

    let names = file_names(&bytes);
    assert!(names.contains(&String::from("data/test/custom/hello.json")));
    assert!(names.contains(&String::from("data/test2/custom/hello.json")));
    assert_eq!(names.len(), 5);
    assert_eq!(file_bytes(&bytes, "data/test/custom/hello.json"), b"{\"a\": 1}".to_vec());
    assert_eq!(file_bytes(&bytes, "data/test2/custom/hello.json"), b"{\"b\": 2}".to_vec());
}

#[test]
fn duplicate_path_last_write_wins() {
    let mut namespace = Namespace::new("test");
    namespace
        .add_component(Component::Recipe(Json::new("{\"first\": true}", "cake")))
        .add_component(Component::Advancement(Json::new("{}", "root")))
        .add_component(Component::Recipe(Json::new("{\"second\": true}", "cake")));
    let mut builder = DataPackBuilder::new();
    builder.add_namespace(&namespace);

    let raw = plan(&builder.raw_entries());
    assert_eq!(raw.len(), 6);
    assert_eq!(raw[1], (String::from("data/test/recipes/cake.json"), b"{\"first\": true}".to_vec()));
    assert_eq!(raw[3], (String::from("data/test/recipes/cake.json"), b"{\"second\": true}".to_vec()));

    let files = plan(&builder.entries());
    let paths: Vec<&str> = files.iter().map(|f| f.0.as_str()).collect();
    assert_eq!(
        paths,
        vec![
            "pack.mcmeta",
            "data/test/advancements/root.json",
            "data/test/recipes/cake.json",
            "data/minecraft/tags/functions/load.json",
            "data/minecraft/tags/functions/tick.json",
        ]
    );
    assert_eq!(files[2].1, b"{\"second\": true}".to_vec());

    let bytes = builder.build().unwrap();
    assert_eq!(file_names(&bytes), paths);
    assert_eq!(file_bytes(&bytes, "data/test/recipes/cake.json"), b"{\"second\": true}".to_vec());
}

#[test]
fn generated_tag_document_wins_over_a_component_at_its_path() {
    let mut builder = DataPackBuilder::new();
    builder.add_namespace(
        Namespace::new("minecraft")
            .add_component(Component::TagFunction(Json::new("{\"values\": [\"mine:own\"]}", "load")))
            .add_component(Component::Function(MCFunction::new("say tick", "clock", false, true))),
    );
    let files = plan(&builder.entries());
    assert_eq!(files.len(), 4);
    assert_eq!(files[0].0, "pack.mcmeta");
    assert_eq!(files[1].0, "data/minecraft/functions/clock.mcfunction");
    assert_eq!(files[2], (String::from("data/minecraft/tags/functions/load.json"), EMPTY_TAGS.as_bytes().to_vec()));
    assert_eq!(
        files[3],
        (
            String::from("data/minecraft/tags/functions/tick.json"),
            b"{\n\t\"values\": [\n\t\t\"minecraft:clock\"\n\t]\n}".to_vec()
        )
    );
}

#[test]
fn empty_pack_holds_metadata_and_empty_tag_documents() {
    let builder = DataPackBuilder::new();
    let files = plan(&builder.entries());
    assert_eq!(
        files,
        vec![
            (
                String::from("pack.mcmeta"),
                b"{\n    \"pack\": {\n        \"pack_format\": 10,\n        \"description\": \"\"\n    }\n}".to_vec()
            ),
            (String::from("data/minecraft/tags/functions/load.json"), EMPTY_TAGS.as_bytes().to_vec()),
            (String::from("data/minecraft/tags/functions/tick.json"), EMPTY_TAGS.as_bytes().to_vec()),
        ]
    );
    let bytes = builder.build().unwrap();
    assert_eq!(file_names(&bytes).len(), 3);
    assert_eq!(file_bytes(&bytes, "pack.mcmeta"), files[0].1);
}

#[test]
fn pack_without_scripts_has_empty_tag_documents() {
    let mut builder = DataPackBuilder::new();
    builder.add_namespace(
        Namespace::new("plain")
            .add_component(Component::LootTable(Json::new("{}", "chest")))
            .add_component(Component::MCFunction(MCFunction::new("say generic", "loose/script", true, true)))
            .add_component(Component::Nbt(Nbt::from_raw(vec![10, 0, 0, 0], "loose/blob"))),
    );
    let bytes = builder.build().unwrap();
    assert_eq!(file_bytes(&bytes, "data/minecraft/tags/functions/load.json"), EMPTY_TAGS.as_bytes().to_vec());
    assert_eq!(file_bytes(&bytes, "data/minecraft/tags/functions/tick.json"), EMPTY_TAGS.as_bytes().to_vec());
    assert_eq!(file_bytes(&bytes, "data/plain/loose/script.mcfunction"), b"say generic".to_vec());
    assert_eq!(file_bytes(&bytes, "data/plain/loose/blob.nbt"), vec![10, 0, 0, 0]);
}

#[test]
fn pack_meta_holds_format_and_description() {
    let mut builder = DataPackBuilder::new();
    assert_eq!(
        builder.pack_meta(),
        "{\n    \"pack\": {\n        \"pack_format\": 10,\n        \"description\": \"\"\n    }\n}"
    );
    builder.set_pack_format(48).set_description("A small pack");
    assert_eq!(
        builder.pack_meta(),
        "{\n    \"pack\": {\n        \"pack_format\": 48,\n        \"description\": \"A small pack\"\n    }\n}"
    );
    let compact: String = builder.pack_meta().chars().filter(|c| !c.is_whitespace()).collect();
    assert_eq!(compact, "{\"pack\":{\"pack_format\":48,\"description\":\"Asmallpack\"}}");
    let bytes = builder.build().unwrap();
    assert_eq!(file_bytes(&bytes, "pack.mcmeta"), builder.pack_meta().into_bytes());
}

#[test]
fn description_is_not_escaped() {
    let mut builder = DataPackBuilder::new();
    builder.set_description("say \"hi\" \\ bye");
    assert_eq!(
        builder.pack_meta(),
        "{\n    \"pack\": {\n        \"pack_format\": 10,\n        \"description\": \"say \"hi\" \\ bye\"\n    }\n}"
    );
}

#[test]
fn pack_format_zero_is_refused() {
    let mut builder = DataPackBuilder::new();
    builder.set_pack_format(0);
    builder.add_namespace(&Namespace::new("test"));
    assert_eq!(builder.build(), Err(BuildError::Configuration { pack_format: 0 }));
    builder.set_pack_format(1);
    assert!(builder.build().is_ok());
}

#[test]
fn later_change_of_a_namespace_does_not_reach_the_pack() {
    let mut namespace = Namespace::new("test");
    namespace.add_component(Component::Function(MCFunction::new("say one", "one", true, false)));
    let mut builder = DataPackBuilder::new();
    builder.add_namespace(&namespace);
    namespace.add_component(Component::Function(MCFunction::new("say two", "two", true, false)));

    let files = plan(&builder.entries());
    assert_eq!(files.len(), 4);
    assert_eq!(files[1], (String::from("data/test/functions/one.mcfunction"), b"say one".to_vec()));
    assert_eq!(namespace.components.len(), 2);
}

#[test]
fn build_twice_gives_the_same_archive() {
    let mut builder = DataPackBuilder::new();
    builder.set_description("twice").add_namespace(
        Namespace::new("test").add_component(Component::Function(MCFunction::new("say hi", "hello", true, true))),
    );
    let first = builder.build().unwrap();
    let second = builder.build().unwrap();
    assert_eq!(first, second);

    let mut other = DataPackBuilder::new();
    other.set_description("twice").add_namespace(
        Namespace::new("test").add_component(Component::Function(MCFunction::new("say hi", "hello", true, true))),
    );
    assert_eq!(other.build().unwrap(), first);
}

#[test]
fn files_are_stored_without_compression() {
    let mut builder = DataPackBuilder::new();
    builder.add_namespace(
        Namespace::new("test").add_component(Component::Json(Json::new("aaaaaaaaaaaaaaaaaaaaaaaaaaaaaaaa", "a"))),
    );
    let bytes = builder.build().unwrap();
    let mut archive = zip::ZipArchive::new(Cursor::new(bytes.clone())).unwrap();
    for index in 0..archive.len() {
        let file = archive.by_index(index).unwrap();
        assert_eq!(file.compression(), zip::CompressionMethod::Stored);
        assert_eq!(file.compressed_size(), file.size());
    }
    let needle = b"aaaaaaaaaaaaaaaaaaaaaaaaaaaaaaaa";
    assert!(bytes.windows(needle.len()).any(|window| window == needle));
}

#[test]
fn build_refuses_the_first_path_that_is_too_long() {
    let first = "a".repeat(70000);
    let second = "b".repeat(70000);
    let mut builder = DataPackBuilder::new();
    builder.add_namespace(
        Namespace::new("test")
            .add_component(Component::Recipe(Json::new("{}", "cake")))
            .add_component(Component::Recipe(Json::new("{}", &first)))
            .add_component(Component::Advancement(Json::new("{}", &second))),
    );
    assert_eq!(
        builder.build(),
        Err(BuildError::PathTooLong { path: format!("data/test/recipes/{}.json", first) })
    );
}

#[test]
fn build_takes_a_path_of_the_greatest_length() {
    let long = "r".repeat(65535 - "data/test/recipes/.json".len());
    let mut builder = DataPackBuilder::new();
    builder.add_namespace(Namespace::new("test").add_component(Component::Recipe(Json::new("{}", &long))));
    let bytes = builder.build().unwrap();
    let path = format!("data/test/recipes/{}.json", long);
    assert_eq!(path.len(), 65535);
    assert_eq!(file_bytes(&bytes, &path), b"{}".to_vec());
    assert_eq!(file_names(&bytes).len(), 4);
}

#[test]
fn build_succeeds_on_every_pack_that_fits() {
    for count in 0..6usize {
        let mut namespace = Namespace::new("n");
        for index in 0..count {
            namespace.add_component(Component::Function(MCFunction::new(
                "say hi",
                &format!("f{}", index),
                index % 2 == 0,
                index % 3 == 0,
            )));
        }
        let mut builder = DataPackBuilder::new();
        builder.add_namespace(&namespace);
        let bytes = builder.build().unwrap();
        assert_eq!(file_names(&bytes).len(), count + 3);
    }
}

#[test]
fn shared_path_that_is_too_long_is_refused() {
    let long = "x".repeat(70000);
    let mut builder = DataPackBuilder::new();
    builder.add_namespace(
        Namespace::new("test")
            .add_component(Component::Json(Json::new("{\"old\": 1}", &long)))
            .add_component(Component::Json(Json::new("{\"new\": 2}", &long))),
    );
    assert_eq!(
        builder.build(),
        Err(BuildError::PathTooLong { path: format!("data/test/{}.json", long) })
    );
    assert_eq!(builder.entries().len(), 4);
}
