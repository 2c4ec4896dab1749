//! What a plugin has to export, how its library file is named and when a load
//! counts as complete.

use crate::error::ErrorKind;
use vstd::prelude::*;

verus! {

/// The entry points that every plugin exports with C linkage.
#[derive(Clone, Copy, Debug, PartialEq, Eq, Structural)]
pub enum PluginSymbol {
    /// `init_logger`, which installs the log transport.
    InitLogger,
    /// `name`, the plugin's identifier.
    Name,
    /// `version`, the plugin's version.
    Version,
    /// `init`, the lifecycle hook.
    Init,
    /// `process`, the per-request hook.
    Process,
}

/// The exported name of `symbol`.
pub open spec fn symbol_text(symbol: PluginSymbol) -> Seq<char> {
    match symbol {
        PluginSymbol::InitLogger => "init_logger"@,
        PluginSymbol::Name => "name"@,
        PluginSymbol::Version => "version"@,
        PluginSymbol::Init => "init"@,
        PluginSymbol::Process => "process"@,
    }
}

/// The required symbols in the order in which a load resolves them.
pub open spec fn resolution_order() -> Seq<PluginSymbol> {
    seq![
        PluginSymbol::InitLogger,
        PluginSymbol::Name,
        PluginSymbol::Version,
        PluginSymbol::Init,
        PluginSymbol::Process,
    ]
}

/// The exported name of `symbol`.
pub fn symbol_name(symbol: PluginSymbol) -> (name: &'static str)
    ensures
        name@ == symbol_text(symbol),
{
    match symbol {
        PluginSymbol::InitLogger => "init_logger",
        PluginSymbol::Name => "name",
        PluginSymbol::Version => "version",
        PluginSymbol::Init => "init",
        PluginSymbol::Process => "process",
    }
}

/// The required symbols in resolution order.
pub fn required_symbols() -> (symbols: Vec<PluginSymbol>)
    ensures
        symbols@ == resolution_order(),
{
    let mut symbols: Vec<PluginSymbol> = Vec::new();
    symbols.push(PluginSymbol::InitLogger);
    symbols.push(PluginSymbol::Name);
    symbols.push(PluginSymbol::Version);
    symbols.push(PluginSymbol::Init);
    symbols.push(PluginSymbol::Process);
    proof {
        assert(symbols@ =~= resolution_order());
    }
    symbols
}

/// Which of the required symbols a library was found to export.
#[derive(Clone, Copy, Debug, PartialEq, Eq, Structural)]
pub struct Resolved {
    pub init_logger: bool,
    pub name: bool,
    pub version: bool,
    pub init: bool,
    pub process: bool,
}

/// Why a plugin could not be loaded.
#[derive(Clone, Copy, Debug, PartialEq, Eq, Structural)]
pub enum LoadError {
    /// The library could not be found or opened.
    LibraryOpen,
    /// The library lacks this required symbol.
    SymbolMissing(PluginSymbol),
}

/// The kind of failure that `error` is.
pub open spec fn kind_of(error: LoadError) -> ErrorKind {
    match error {
        LoadError::LibraryOpen => ErrorKind::LibraryOpen,
        LoadError::SymbolMissing(_) => ErrorKind::SymbolMissing,
    }
}

impl LoadError {
    /// The kind of failure that this error is.
    pub fn kind(&self) -> (kind: ErrorKind)
        ensures
            kind == kind_of(*self),
    {
        match self {
            LoadError::LibraryOpen => ErrorKind::LibraryOpen,
            LoadError::SymbolMissing(_) => ErrorKind::SymbolMissing,
        }
    }
}

impl Resolved {
    /// Whether `symbol` was found.
    pub open spec fn has(&self, symbol: PluginSymbol) -> bool {
        match symbol {
            PluginSymbol::InitLogger => self.init_logger,
            PluginSymbol::Name => self.name,
            PluginSymbol::Version => self.version,
            PluginSymbol::Init => self.init,
            PluginSymbol::Process => self.process,
        }
    }

    /// Every required symbol was found.
    pub open spec fn complete(&self) -> bool {
        forall|symbol: PluginSymbol| self.has(symbol)
    }

    /// `symbol` is the first in resolution order that was not found.
    pub open spec fn first_missing_is(&self, symbol: PluginSymbol) -> bool {
        exists|i: int|
            {
                &&& 0 <= i < resolution_order().len()
                &&& #[trigger] resolution_order()[i] == symbol
                &&& !self.has(symbol)
                &&& forall|j: int| 0 <= j < i ==> self.has(#[trigger] resolution_order()[j])
            }
    }

    /// Whether `symbol` was found.
    pub fn found(&self, symbol: PluginSymbol) -> (found: bool)
        ensures
            found == self.has(symbol),
    {
        match symbol {
            PluginSymbol::InitLogger => self.init_logger,
            PluginSymbol::Name => self.name,
            PluginSymbol::Version => self.version,
            PluginSymbol::Init => self.init,
            PluginSymbol::Process => self.process,
        }
    }
}

/// Decides a load from what was resolved: it succeeds only with every required
/// symbol, and fails on the first one missing in resolution order.
pub fn check_symbols(resolved: &Resolved) -> (outcome: Result<(), LoadError>)
    ensures
        outcome is Ok <==> resolved.complete(),
        match outcome {
            Ok(_) => true,
            Err(LoadError::SymbolMissing(symbol)) => resolved.first_missing_is(symbol),
            Err(LoadError::LibraryOpen) => false,
        },
{
    let order = required_symbols();
    let mut i: usize = 0;
    while i < order.len()
        invariant
            order@ == resolution_order(),
            i <= order@.len(),
            forall|j: int| 0 <= j < i ==> resolved.has(#[trigger] resolution_order()[j]),
        decreases order@.len() - i,
    {
        let symbol = order[i];
        if !resolved.found(symbol) {
            proof {
                assert(resolution_order()[i as int] == symbol);
            }
            return Err(LoadError::SymbolMissing(symbol));
        }
        i += 1;
    }
    proof {
        assert forall|symbol: PluginSymbol| resolved.has(symbol) by {
            let at: int = match symbol {
                PluginSymbol::InitLogger => 0,
                PluginSymbol::Name => 1,
                PluginSymbol::Version => 2,
                PluginSymbol::Init => 3,
                PluginSymbol::Process => 4,
            };
            assert(resolution_order()[at] == symbol);
        }
    }
    Ok(())
}

/// Decides a load from whether the library opened and what was resolved in it.
pub fn load_outcome(opened: bool, resolved: &Resolved) -> (outcome: Result<(), LoadError>)
    ensures
        outcome is Ok <==> opened && resolved.complete(),
        match outcome {
            Ok(_) => true,
            Err(LoadError::LibraryOpen) => !opened,
            Err(LoadError::SymbolMissing(symbol)) => opened && resolved.first_missing_is(symbol),
        },
{
    if !opened {
        Err(LoadError::LibraryOpen)
    } else {
        check_symbols(resolved)
    }
}

/// `filename` is `name` between some prefix and some suffix.
pub open spec fn frames(filename: Seq<char>, name: Seq<char>) -> bool {
    exists|prefix: Seq<char>, suffix: Seq<char>| filename == #[trigger] (prefix + name + suffix)
}

/// The file name under which the platform keeps the shared library `name`, as
/// `libloading::library_filename` gives it.
pub uninterp spec fn library_filename_of(name: Seq<char>) -> Seq<char>;

/// The file name under which this platform keeps the shared library for
/// `name`. The call is `libloading::library_filename`, which reads nothing but
/// its argument and two constants of the build: it puts the platform's prefix
/// before the name and its suffix behind it. Which prefix and suffix is the
/// platform's affair.
#[verifier::external_body]
fn platform_filename(name: &str) -> (filename: String)
    ensures
        filename@ == library_filename_of(name@),
        frames(filename@, name@),
{
    libloading::library_filename(name).to_string_lossy().into_owned()
}

/// Where a plugin's code lives: the logical name of its library and the file
/// name that this platform gives it.
#[derive(Debug)]
pub struct LibraryFile {
    library_name: String,
    filename: String,
}

impl LibraryFile {
    /// The logical name of the library.
    pub closed spec fn spec_library_name(&self) -> Seq<char> {
        self.library_name@
    }

    /// The file name of the library on this platform.
    pub closed spec fn spec_filename(&self) -> Seq<char> {
        self.filename@
    }

    /// The file name is the one that the platform gives the logical name: the
    /// logical name between a prefix and a suffix.
    pub open spec fn wf(&self) -> bool {
        &&& self.spec_filename() == library_filename_of(self.spec_library_name())
        &&& frames(self.spec_filename(), self.spec_library_name())
    }

    /// The file that holds the library `library_name` on this platform.
    pub fn locate(library_name: &str) -> (file: LibraryFile)
        ensures
            file.wf(),
            file.spec_library_name() == library_name@,
            file.spec_filename() == library_filename_of(library_name@),
    {
        let filename = platform_filename(library_name);
        LibraryFile { library_name: library_name.to_owned(), filename }
    }

    /// The logical name of the library.
    pub fn library_name(&self) -> (name: &str)
        ensures
            name@ == self.spec_library_name(),
    {
        self.library_name.as_str()
    }

    /// The file name of the library on this platform.
    pub fn filename(&self) -> (filename: &str)
        ensures
            filename@ == self.spec_filename(),
    {
        self.filename.as_str()
    }
}

/// One loaded plugin: the file it was loaded from and the capabilities
/// resolved from it. The capabilities hold the library handle beside the entry
/// points, so both are dropped together.
#[derive(Debug)]
pub struct SoService<C> {
    file: LibraryFile,
    capabilities: C,
}

impl<C> SoService<C> {
    /// The file the plugin was loaded from.
    pub closed spec fn spec_file(&self) -> LibraryFile {
        self.file
    }

    /// The capabilities resolved from the library.
    pub closed spec fn spec_capabilities(&self) -> C {
        self.capabilities
    }

    /// The handle for the plugin loaded from `file`, once every required
    /// symbol has been resolved into `capabilities`.
    pub fn new(file: LibraryFile, capabilities: C) -> (service: SoService<C>)
        ensures
            service.spec_file() == file,
            service.spec_capabilities() == capabilities,
    {
        SoService { file, capabilities }
    }

    /// The file the plugin was loaded from.
    pub fn file(&self) -> (file: &LibraryFile)
        ensures
            *file == self.spec_file(),
    {
        &self.file
    }

    /// Takes the handle apart into the file and the capabilities.
    pub fn into_parts(self) -> (parts: (LibraryFile, C))
        ensures
            parts.0 == self.spec_file(),
            parts.1 == self.spec_capabilities(),
    {
        (self.file, self.capabilities)
    }

    /// The capabilities resolved from the library.
    pub fn capabilities(&self) -> (capabilities: &C)
        ensures
            *capabilities == self.spec_capabilities(),
    {
        &self.capabilities
    }
}

} // verus!
