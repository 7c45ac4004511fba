//! Loading of native libraries: the name of a library's file, the handle to
//! a loaded library, and the state machine that opens a library and resolves
//! the symbols declared for it, all or nothing.

use vstd::prelude::*;
use vstd::string::StringExecFns;

verus! {

/// Why a library could not be loaded.
#[derive(Clone, Debug, PartialEq, Eq)]
pub enum LibraryError {
    /// The library's file could not be found or opened.
    LoadLibraryError,
    /// The library was opened, but it lacks the symbol named here. The
    /// library was closed again before this was reported.
    LoadFunctionError(String),
}

/// The platform whose conventions name a library's file.
#[derive(Clone, Copy, Debug, PartialEq, Eq, Structural)]
pub enum Platform {
    Linux,
    Windows,
}

/// The name of the file that holds the library `name` on `platform`:
/// `lib<name>.so`, with `.<version>` behind it, on Linux, and `<name>.dll`,
/// with `-<version>` behind the name, on Windows.
pub open spec fn library_filename(
    platform: Platform,
    name: Seq<char>,
    version: Option<Seq<char>>,
) -> Seq<char> {
    match platform {
        Platform::Linux => match version {
            Some(version) => "lib"@ + name + ".so."@ + version,
            None => "lib"@ + name + ".so"@,
        },
        Platform::Windows => match version {
            Some(version) => name + "-"@ + version + ".dll"@,
            None => name + ".dll"@,
        },
    }
}

/// The view of an optional version token.
pub open spec fn version_view(version: Option<&str>) -> Option<Seq<char>> {
    match version {
        Some(version) => Some(version@),
        None => None,
    }
}

/// Returns a library filename.
pub fn filename(platform: Platform, name: &str, version: Option<&str>) -> (file: String)
    ensures
        file@ == library_filename(platform, name@, version_view(version)),
{
    match platform {
        Platform::Linux => {
            let mut file = String::from_str("lib");
            file.append(name);
            match version {
                Some(version) => {
                    file.append(".so.");
                    file.append(version);
                },
                None => {
                    file.append(".so");
                },
            }
            file
        },
        Platform::Windows => {
            let mut file = String::from_str(name);
            match version {
                Some(version) => {
                    file.append("-");
                    file.append(version);
                },
                None => {},
            }
            file.append(".dll");
            file
        },
    }
}

/// How far a load has come.
#[derive(Clone, Copy, Debug, PartialEq, Eq, Structural)]
pub enum Phase {
    /// The library is to be opened.
    Opening,
    /// The library is open and the next declared symbol is to be resolved.
    Resolving,
    /// A symbol was missing and the library is to be closed again.
    Closing,
    /// The library is open and every declared symbol was resolved.
    Loaded,
    /// The library could not be opened.
    OpenFailed,
    /// A symbol was missing and the library was closed again.
    SymbolMissing,
}

/// What the platform is asked to do for a load.
pub enum LoadAction {
    /// Open the library in the named file and report its handle, or 0.
    Open(Seq<char>),
    /// Resolve the named symbol in the library and report its address, or 0.
    Resolve(Seq<char>),
    /// Close the library.
    Close,
    /// Nothing: the load has ended.
    Finish,
}

/// A load, as the contracts speak of it.
pub struct LoadState {
    /// The name of the library's file.
    pub file: Seq<char>,
    /// The declared symbols, in the order of their declaration.
    pub symbols: Seq<Seq<char>>,
    pub phase: Phase,
    /// The handle of the library once it was opened.
    pub handle: usize,
    /// The addresses of the symbols resolved so far, in the same order.
    pub addresses: Seq<usize>,
}

impl LoadState {
    /// The load of `symbols` from `file` before anything was done.
    pub open spec fn start(file: Seq<char>, symbols: Seq<Seq<char>>) -> LoadState {
        LoadState { file, symbols, phase: Phase::Opening, handle: 0, addresses: Seq::empty() }
    }

    /// What holds of every load that `start` and `advance` lead to.
    pub open spec fn wf(self) -> bool {
        &&& self.addresses.len() <= self.symbols.len()
        &&& forall|i: int| 0 <= i < self.addresses.len() ==> self.addresses[i] != 0
        &&& match self.phase {
            Phase::Opening | Phase::OpenFailed => self.addresses.len() == 0,
            Phase::Resolving | Phase::Closing | Phase::SymbolMissing => self.handle != 0
                && self.addresses.len() < self.symbols.len(),
            Phase::Loaded => self.handle != 0 && self.addresses.len() == self.symbols.len(),
        }
    }

    /// Whether the load has ended, well or badly.
    pub open spec fn finished(self) -> bool {
        self.phase == Phase::Loaded || self.phase == Phase::OpenFailed || self.phase
            == Phase::SymbolMissing
    }

    /// What the platform is to do next.
    pub open spec fn action(self) -> LoadAction {
        match self.phase {
            Phase::Opening => LoadAction::Open(self.file),
            Phase::Resolving => LoadAction::Resolve(self.symbols[self.addresses.len() as int]),
            Phase::Closing => LoadAction::Close,
            _ => LoadAction::Finish,
        }
    }

    /// The load after the platform did what `action` asks and reported
    /// `reply`: the handle for an open, the address for a resolve, anything
    /// for a close. A reply of 0 reports that the open or the resolve failed.
    pub open spec fn advance(self, reply: usize) -> LoadState {
        match self.phase {
            Phase::Opening => if reply == 0 {
                LoadState { phase: Phase::OpenFailed, ..self }
            } else if self.symbols.len() == 0 {
                LoadState { phase: Phase::Loaded, handle: reply, ..self }
            } else {
                LoadState { phase: Phase::Resolving, handle: reply, ..self }
            },
            Phase::Resolving => if reply == 0 {
                LoadState { phase: Phase::Closing, ..self }
            } else if self.addresses.len() + 1 == self.symbols.len() {
                LoadState { phase: Phase::Loaded, addresses: self.addresses.push(reply), ..self }
            } else {
                LoadState { addresses: self.addresses.push(reply), ..self }
            },
            Phase::Closing => LoadState { phase: Phase::SymbolMissing, ..self },
            _ => self,
        }
    }

    /// The load after the platform reported `replies`, one for each action
    /// in turn.
    pub open spec fn run(self, replies: Seq<usize>) -> LoadState
        decreases replies.len(),
    {
        if replies.len() == 0 {
            self
        } else {
            self.run(replies.drop_last()).advance(replies.last())
        }
    }

    /// The actions that the platform was asked for and answered with
    /// `replies`, in order. Replies to a load that has ended answer nothing.
    pub open spec fn history(self, replies: Seq<usize>) -> Seq<LoadAction>
        decreases replies.len(),
    {
        if replies.len() == 0 {
            Seq::empty()
        } else {
            let before = self.run(replies.drop_last());
            if before.finished() {
                self.history(replies.drop_last())
            } else {
                self.history(replies.drop_last()).push(before.action())
            }
        }
    }
}

/// A loaded library, as the contracts speak of it.
pub struct LibraryView {
    pub handle: usize,
    pub symbols: Seq<Seq<char>>,
    pub addresses: Seq<usize>,
}

impl LibraryView {
    /// What holds of every loaded library: it is open, and every declared
    /// symbol has an address that is not null.
    pub open spec fn wf(self) -> bool {
        &&& self.handle != 0
        &&& self.addresses.len() == self.symbols.len()
        &&& forall|i: int| 0 <= i < self.addresses.len() ==> self.addresses[i] != 0
    }

    /// The first place at which `symbol` was declared, from `from` on.
    pub open spec fn position(self, symbol: Seq<char>, from: int) -> Option<int>
        decreases self.symbols.len() - from,
    {
        if from < 0 || from >= self.symbols.len() {
            None
        } else if self.symbols[from] == symbol {
            Some(from)
        } else {
            self.position(symbol, from + 1)
        }
    }

    /// The address that was resolved for `symbol`, if it was declared.
    pub open spec fn address(self, symbol: Seq<char>) -> Option<usize> {
        match self.position(symbol, 0) {
            Some(i) => Some(self.addresses[i]),
            None => None,
        }
    }
}

/// The views of a run of strings.
pub open spec fn names(strings: Seq<String>) -> Seq<Seq<char>> {
    strings.map_values(|s: String| s@)
}

/// The handle to a loaded library: the native handle and, for every
/// declared symbol, the address that it was resolved to. There is one owner:
/// the handle cannot be copied, and `release` uses it up.
pub struct LibraryHandle {
    handle: usize,
    symbols: Vec<String>,
    addresses: Vec<usize>,
}

impl View for LibraryHandle {
    type V = LibraryView;

    closed spec fn view(&self) -> LibraryView {
        LibraryView {
            handle: self.handle,
            symbols: names(self.symbols@),
            addresses: self.addresses@,
        }
    }
}

impl LibraryHandle {
    #[verifier::type_invariant]
    spec fn valid(self) -> bool {
        self@.wf()
    }

    /// The address that `symbol` was resolved to when the library was
    /// loaded, if it was declared; it is never null.
    pub fn address(&self, symbol: &str) -> (address: Option<usize>)
        ensures
            self@.wf(),
            address == self@.address(symbol@),
            address matches Some(a) ==> a != 0,
    {
        proof {
            use_type_invariant(self);
        }
        let wanted = String::from_str(symbol);
        let mut index: usize = 0;
        while index < self.symbols.len()
            invariant
                self@.wf(),
                wanted@ == symbol@,
                index <= self.symbols.len(),
                self@.position(symbol@, 0) == self@.position(symbol@, index as int),
            decreases self.symbols.len() - index,
        {
            if self.symbols[index] == wanted {
                return Some(self.addresses[index]);
            }
            index += 1;
        }
        None
    }

    /// The number of declared symbols.
    pub fn len(&self) -> (len: usize)
        ensures
            len == self@.symbols.len(),
    {
        self.symbols.len()
    }

    /// Gives up the library: uses the handle up and hands out the native
    /// handle, which the platform is to close; it is not null.
    pub fn release(self) -> (handle: usize)
        ensures
            handle == self@.handle,
            handle != 0,
    {
        proof {
            use_type_invariant(&self);
        }
        self.handle
    }
}

/// What the platform is asked to do for a load; see `LoadAction`.
#[derive(Clone, Debug, PartialEq, Eq)]
pub enum LoadStep {
    Open(String),
    Resolve(String),
    Close,
    Finish,
}

impl View for LoadStep {
    type V = LoadAction;

    open spec fn view(&self) -> LoadAction {
        match self {
            LoadStep::Open(file) => LoadAction::Open(file@),
            LoadStep::Resolve(symbol) => LoadAction::Resolve(symbol@),
            LoadStep::Close => LoadAction::Close,
            LoadStep::Finish => LoadAction::Finish,
        }
    }
}

/// A load in progress. The platform does what `step` asks, reports with
/// `advance`, and goes on until `step` is to finish; `finish` then hands out
/// the handle or the error.
pub struct Loader {
    file: String,
    symbols: Vec<String>,
    /// Never `Loaded`: an open library whose symbols are all resolved is
    /// loaded.
    phase: Phase,
    handle: usize,
    addresses: Vec<usize>,
}

impl View for Loader {
    type V = LoadState;

    closed spec fn view(&self) -> LoadState {
        LoadState {
            file: self.file@,
            symbols: names(self.symbols@),
            phase: if self.phase == Phase::Resolving && self.addresses@.len()
                == self.symbols@.len() {
                Phase::Loaded
            } else {
                self.phase
            },
            handle: self.handle,
            addresses: self.addresses@,
        }
    }
}

impl Loader {
    #[verifier::type_invariant]
    spec fn valid(self) -> bool {
        &&& self.phase != Phase::Loaded
        &&& self@.wf()
    }

    /// Begins the load of the library `name`, in the given version if one
    /// is given, with the symbols that are required of it.
    pub fn load(platform: Platform, name: &str, version: Option<&str>, symbols: Vec<String>) -> (loader:
        Loader)
        ensures
            loader@ == LoadState::start(
                library_filename(platform, name@, version_view(version)),
                names(symbols@),
            ),
            loader@.wf(),
    {
        Loader {
            file: filename(platform, name, version),
            symbols,
            phase: Phase::Opening,
            handle: 0,
            addresses: Vec::new(),
        }
    }

    /// What the platform is to do next.
    pub fn step(&self) -> (step: LoadStep)
        ensures
            self@.wf(),
            step@ == self@.action(),
    {
        proof {
            use_type_invariant(self);
        }
        match self.phase {
            Phase::Opening => LoadStep::Open(self.file.clone()),
            Phase::Resolving => {
                if self.addresses.len() < self.symbols.len() {
                    LoadStep::Resolve(self.symbols[self.addresses.len()].clone())
                } else {
                    LoadStep::Finish
                }
            },
            Phase::Closing => LoadStep::Close,
            _ => LoadStep::Finish,
        }
    }

    /// Takes the platform's report on what `step` asked for: the handle of
    /// the opened library, the address of the resolved symbol, or 0 where the
    /// open or the resolve failed; what is reported of a close is not looked
    /// at. After the first symbol that is missing the library is to be closed,
    /// and no further symbol is asked for. A load that has ended stays as it
    /// is.
    pub fn advance(&mut self, reply: usize)
        ensures
            old(self)@.wf(),
            final(self)@.wf(),
            final(self)@ == old(self)@.advance(reply),
    {
        proof {
            use_type_invariant(&*self);
        }
        match self.phase {
            Phase::Opening => {
                if reply == 0 {
                    self.phase = Phase::OpenFailed;
                } else {
                    self.handle = reply;
                    self.phase = Phase::Resolving;
                }
            },
            Phase::Resolving => {
                if self.addresses.len() < self.symbols.len() {
                    if reply == 0 {
                        self.phase = Phase::Closing;
                    } else {
                        let mut addresses: Vec<usize> = Vec::new();
                        core::mem::swap(&mut self.addresses, &mut addresses);
                        addresses.push(reply);
                        self.addresses = addresses;
                    }
                }
            },
            Phase::Closing => {
                self.phase = Phase::SymbolMissing;
            },
            _ => {},
        }
    }

    /// Ends the load. Where every symbol was resolved this hands out the
    /// handle; where the library could not be opened, or a symbol was missing
    /// and the library was closed again, the error. While the platform still
    /// has something to do, nothing.
    pub fn finish(self) -> (outcome: Option<Result<LibraryHandle, LibraryError>>)
        ensures
            self@.wf(),
            self@.phase == Phase::Loaded ==> (outcome matches Some(Ok(library)) && library@
                == (LibraryView {
                handle: self@.handle,
                symbols: self@.symbols,
                addresses: self@.addresses,
            })),
            self@.phase == Phase::OpenFailed ==> outcome matches Some(
                Err(LibraryError::LoadLibraryError),
            ),
            self@.phase == Phase::SymbolMissing ==> (outcome matches Some(
                Err(LibraryError::LoadFunctionError(symbol)),
            ) && symbol@ == self@.symbols[self@.addresses.len() as int]),
            !self@.finished() ==> outcome is None,
    {
        proof {
            use_type_invariant(&self);
        }
        match self.phase {
            Phase::Resolving => {
                if self.addresses.len() == self.symbols.len() {
                    Some(
                        Ok(
                            LibraryHandle {
                                handle: self.handle,
                                symbols: self.symbols,
                                addresses: self.addresses,
                            },
                        ),
                    )
                } else {
                    None
                }
            },
            Phase::OpenFailed => Some(Err(LibraryError::LoadLibraryError)),
            Phase::SymbolMissing => Some(
                Err(LibraryError::LoadFunctionError(self.symbols[self.addresses.len()].clone())),
            ),
            _ => None,
        }
    }
}

/// The requests to resolve the first `count` of `symbols`, in order.
pub open spec fn resolves(symbols: Seq<Seq<char>>, count: int) -> Seq<LoadAction> {
    Seq::new(count as nat, |i: int| LoadAction::Resolve(symbols[i]))
}

/// What a load has come to, and what the platform was asked for on the way,
/// whatever the platform reported. The library is opened first and once. The
/// declared symbols are resolved in the order of their declaration, each
/// once, up to the first that is missing. After a missing symbol the library
/// is closed, once, before the load ends. The handle that a load keeps is the
/// one reported for the open, and the addresses are those reported for the
/// symbols, in order.
pub proof fn lemma_load_history(file: Seq<char>, symbols: Seq<Seq<char>>, replies: Seq<usize>)
    ensures
        ({
            let now = LoadState::start(file, symbols).run(replies);
            let done = LoadState::start(file, symbols).history(replies);
            let resolved = now.addresses.len() as int;
            &&& now.wf()
            &&& now.file == file
            &&& now.symbols == symbols
            &&& done.len() <= replies.len()
            &&& now.phase != Phase::Opening ==> replies.len() > 0
            &&& now.phase != Phase::Opening && now.phase != Phase::OpenFailed ==> now.handle
                == replies[0]
            &&& !now.finished() ==> done.len() == replies.len()
            &&& forall|i: int| 0 <= i < resolved ==> now.addresses[i] == replies[i + 1]
            &&& done == match now.phase {
                Phase::Opening => Seq::empty(),
                Phase::OpenFailed => seq![LoadAction::Open(file)],
                Phase::Resolving | Phase::Loaded => seq![LoadAction::Open(file)] + resolves(
                    symbols,
                    resolved,
                ),
                Phase::Closing => seq![LoadAction::Open(file)] + resolves(symbols, resolved + 1),
                Phase::SymbolMissing => (seq![LoadAction::Open(file)] + resolves(
                    symbols,
                    resolved + 1,
                )).push(LoadAction::Close),
            }
        }),
    decreases replies.len(),
{
    let start = LoadState::start(file, symbols);
    if replies.len() == 0 {
    } else {
        let earlier = replies.drop_last();
        lemma_load_history(file, symbols, earlier);
        let before = start.run(earlier);
        let done = start.history(earlier);
        let now = start.run(replies);
        let count = before.addresses.len() as int;
        let open = seq![LoadAction::Open(file)];
        match before.phase {
            Phase::Opening => {
                assert(done.push(LoadAction::Open(file)) == open);
                assert(open + resolves(symbols, 0) == open);
            },
            Phase::Resolving => {
                assert((open + resolves(symbols, count)).push(
                    LoadAction::Resolve(symbols[count]),
                ) == open + resolves(symbols, count + 1));
                if replies.last() != 0 {
                    assert forall|i: int| 0 <= i < now.addresses.len() implies now.addresses[i]
                        == replies[i + 1] by {
                        if i < count {
                            assert(replies[i + 1] == earlier[i + 1]);
                        }
                    }
                }
            },
            _ => {},
        }
    }
}

/// Where a load fails for a missing symbol, the library that was opened for
/// it is closed before the load ends: the last thing asked of the platform is
/// to close the library, after the one open and the resolves up to the
/// missing symbol, and nothing else was asked.
pub proof fn lemma_missing_symbol_closes_library(
    file: Seq<char>,
    symbols: Seq<Seq<char>>,
    replies: Seq<usize>,
)
    requires
        LoadState::start(file, symbols).run(replies).phase == Phase::SymbolMissing,
    ensures
        ({
            let now = LoadState::start(file, symbols).run(replies);
            let done = LoadState::start(file, symbols).history(replies);
            let missing = now.addresses.len() as int;
            &&& missing < symbols.len()
            &&& done.len() == missing + 3
            &&& done[0] == LoadAction::Open(file)
            &&& forall|i: int| 0 <= i <= missing ==> done[i + 1] == LoadAction::Resolve(symbols[i])
            &&& done.last() == LoadAction::Close
        }),
{
    lemma_load_history(file, symbols, replies);
}

/// Where a load succeeds, the library was opened and never closed, every
/// declared symbol was resolved, once and in order, and the handle keeps for
/// each symbol the address that the platform reported for it, none of them
/// null.
pub proof fn lemma_loaded_keeps_what_was_resolved(
    file: Seq<char>,
    symbols: Seq<Seq<char>>,
    replies: Seq<usize>,
)
    requires
        LoadState::start(file, symbols).run(replies).phase == Phase::Loaded,
    ensures
        ({
            let now = LoadState::start(file, symbols).run(replies);
            let done = LoadState::start(file, symbols).history(replies);
            &&& now.handle == replies[0]
            &&& now.handle != 0
            &&& now.addresses.len() == symbols.len()
            &&& forall|i: int|
                0 <= i < symbols.len() ==> now.addresses[i] == replies[i + 1] && now.addresses[i]
                    != 0
            &&& done.len() == symbols.len() + 1
            &&& done[0] == LoadAction::Open(file)
            &&& forall|i: int| 0 <= i < symbols.len() ==> done[i + 1] == LoadAction::Resolve(symbols[i])
        }),
{
    lemma_load_history(file, symbols, replies);
}

} // verus!
