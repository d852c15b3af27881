use save_shell::bootstrap::{startup_plugins, LogLevel, Plugin};
use save_shell::command::{route, startup_commands, Command};
use save_shell::fs_model::{save_binary_file, InMemoryFs};
use save_shell::string_map::StringMap;

#[test]
fn dialog_plugin_always_registered() {
    assert_eq!(startup_plugins(false), vec![Plugin::Dialog]);
}

#[test]
fn debug_build_adds_info_logger() {
    assert_eq!(
        startup_plugins(true),
        vec![Plugin::Dialog, Plugin::Log(LogLevel::Info)]
    );
}

#[test]
fn command_table_routes_the_save_command() {
    let table = startup_commands();
    let found = route(&table, &String::from("save_binary_file"));
    assert_eq!(found, Some(Command::SaveBinaryFile));
}

#[test]
fn command_table_rejects_unknown_names() {
    let table = startup_commands();
    assert_eq!(route(&table, &String::from("open_file")), None);
    assert_eq!(route(&table, &String::from("")), None);
}

#[test]
fn write_then_read_back_exact_bytes() {
    let mut fs = InMemoryFs::new();
    let outcome = save_binary_file(&mut fs, String::from("/tmp/out.bin"), vec![0x01, 0x02, 0x03]);
    assert!(outcome.is_ok());
    let back = fs
        .read(&String::from("/tmp/out.bin"))
        .expect("the file exists after a successful write");
    assert_eq!(*back, vec![0x01, 0x02, 0x03]);
}

#[test]
fn empty_payload_leaves_an_empty_file() {
    let mut fs = InMemoryFs::new();
    assert!(save_binary_file(&mut fs, String::from("empty.bin"), Vec::new()).is_ok());
    let back = fs
        .read(&String::from("empty.bin"))
        .expect("the file exists after a successful write");
    assert_eq!(*back, Vec::<u8>::new());
}

#[test]
fn writing_twice_equals_writing_once() {
    let mut once = InMemoryFs::new();
    let mut twice = InMemoryFs::new();
    assert!(save_binary_file(&mut once, String::from("out.bin"), vec![4, 5]).is_ok());
    assert!(save_binary_file(&mut twice, String::from("out.bin"), vec![4, 5]).is_ok());
    assert!(save_binary_file(&mut twice, String::from("out.bin"), vec![4, 5]).is_ok());
    assert_eq!(
        once.read(&String::from("out.bin")),
        twice.read(&String::from("out.bin"))
    );
}

#[test]
fn overwrite_with_shorter_payload_leaves_no_residue() {
    let mut fs = InMemoryFs::new();
    assert!(save_binary_file(&mut fs, String::from("out.bin"), vec![1, 2, 3, 4, 5]).is_ok());
    assert!(save_binary_file(&mut fs, String::from("out.bin"), vec![9]).is_ok());
    let back = fs
        .read(&String::from("out.bin"))
        .expect("the file exists after a successful write");
    assert_eq!(*back, vec![9]);
}

#[test]
fn a_write_leaves_other_paths_untouched() {
    let mut fs = InMemoryFs::new();
    assert!(save_binary_file(&mut fs, String::from("a.bin"), vec![7]).is_ok());
    assert!(save_binary_file(&mut fs, String::from("b.bin"), vec![8, 9]).is_ok());
    assert_eq!(*fs.read(&String::from("a.bin")).unwrap(), vec![7]);
    assert_eq!(*fs.read(&String::from("b.bin")).unwrap(), vec![8, 9]);
}

#[test]
fn reading_an_unwritten_path_finds_nothing() {
    let fs = InMemoryFs::new();
    assert!(fs.read(&String::from("/tmp/out.bin")).is_none());
}

#[test]
fn a_later_binding_shadows_an_earlier_one() {
    let mut table: StringMap<u64> = StringMap::new();
    table.insert(String::from("k"), 1);
    table.insert(String::from("k"), 2);
    assert_eq!(table.get(&String::from("k")), Some(&2));
    assert_eq!(table.get(&String::from("other")), None);
}
