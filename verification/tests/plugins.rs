use uservice::error::ErrorKind;
use uservice::plugin::check_symbols;
use uservice::plugin::load_outcome;
use uservice::plugin::required_symbols;
use uservice::plugin::symbol_name;
use uservice::plugin::LibraryFile;
use uservice::plugin::LoadError;
use uservice::plugin::PluginSymbol;
use uservice::plugin::Resolved;
use uservice::plugin::SoService;

fn all() -> Resolved {
    Resolved { init_logger: true, name: true, version: true, init: true, process: true }
}

#[test]
fn required_symbols_are_the_five_of_the_interface() {
    let symbols = required_symbols();
    assert_eq!(
        symbols,
        vec![
            PluginSymbol::InitLogger,
            PluginSymbol::Name,
            PluginSymbol::Version,
            PluginSymbol::Init,
            PluginSymbol::Process,
        ]
    );
    let names: Vec<&str> = symbols.iter().map(|s| symbol_name(*s)).collect();
    assert_eq!(names, vec!["init_logger", "name", "version", "init", "process"]);
}

#[test]
fn a_complete_library_loads() {
    assert_eq!(check_symbols(&all()), Ok(()));
    assert_eq!(load_outcome(true, &all()), Ok(()));
    assert!(all().found(PluginSymbol::Process));
}

#[test]
fn a_library_that_does_not_open_fails_whatever_it_exports() {
    assert_eq!(load_outcome(false, &all()), Err(LoadError::LibraryOpen));
    let none =
        Resolved { init_logger: false, name: false, version: false, init: false, process: false };
    assert_eq!(load_outcome(false, &none), Err(LoadError::LibraryOpen));
}

#[test]
fn each_missing_symbol_fails_the_load() {
    let without_process = Resolved { process: false, ..all() };
    assert_eq!(
        check_symbols(&without_process),
        Err(LoadError::SymbolMissing(PluginSymbol::Process))
    );
    assert!(!without_process.found(PluginSymbol::Process));
    assert_eq!(
        check_symbols(&Resolved { init: false, ..all() }),
        Err(LoadError::SymbolMissing(PluginSymbol::Init))
    );
    assert_eq!(
        check_symbols(&Resolved { version: false, ..all() }),
        Err(LoadError::SymbolMissing(PluginSymbol::Version))
    );
    assert_eq!(
        check_symbols(&Resolved { name: false, ..all() }),
        Err(LoadError::SymbolMissing(PluginSymbol::Name))
    );
    assert_eq!(
        check_symbols(&Resolved { init_logger: false, ..all() }),
        Err(LoadError::SymbolMissing(PluginSymbol::InitLogger))
    );
}

#[test]
fn the_first_missing_symbol_in_resolution_order_is_reported() {
    let holes = Resolved { name: false, process: false, ..all() };
    assert_eq!(load_outcome(true, &holes), Err(LoadError::SymbolMissing(PluginSymbol::Name)));
    let none =
        Resolved { init_logger: false, name: false, version: false, init: false, process: false };
    assert_eq!(load_outcome(true, &none), Err(LoadError::SymbolMissing(PluginSymbol::InitLogger)));
}

#[test]
fn load_errors_have_their_kinds() {
    assert_eq!(LoadError::LibraryOpen.kind(), ErrorKind::LibraryOpen);
    assert_eq!(LoadError::SymbolMissing(PluginSymbol::Init).kind(), ErrorKind::SymbolMissing);
}

#[test]
fn library_file_wraps_the_logical_name() {
    let file = LibraryFile::locate("sample01");
    assert_eq!(file.library_name(), "sample01");
    assert!(file.filename().contains("sample01"));
    assert_ne!(file.filename(), "sample01");
    assert_eq!(file.filename(), libloading::library_filename("sample01").to_str().unwrap());
}

#[test]
fn a_plugin_handle_keeps_file_and_capabilities_together() {
    let service = SoService::new(LibraryFile::locate("foo"), (12, 17));
    assert_eq!(service.file().library_name(), "foo");
    assert_eq!(*service.capabilities(), (12, 17));
}
