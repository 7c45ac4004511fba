use blazar::library::filename;
use blazar::library::LibraryError;
use blazar::library::LoadStep;
use blazar::library::Loader;
use blazar::library::Platform;

fn symbols(names: &[&str]) -> Vec<String> {
    names.iter().map(|name| name.to_string()).collect()
}

#[test]
fn filename_on_linux_without_version() {
    assert_eq!(filename(Platform::Linux, "X11", None), "libX11.so");
}

#[test]
fn filename_on_linux_with_version() {
    assert_eq!(filename(Platform::Linux, "vulkan", Some("1")), "libvulkan.so.1");
}

#[test]
fn filename_on_windows_without_version() {
    assert_eq!(filename(Platform::Windows, "user32", None), "user32.dll");
}

#[test]
fn filename_on_windows_with_version() {
    assert_eq!(filename(Platform::Windows, "vulkan", Some("1")), "vulkan-1.dll");
}

#[test]
fn load_resolves_every_symbol_in_order() {
    let mut loader = Loader::load(
        Platform::Linux,
        "X11",
        None,
        symbols(&["XOpenDisplay", "XCloseDisplay", "XPending"]),
    );
    assert!(matches!(loader.step(), LoadStep::Open(file) if file == "libX11.so"));
    loader.advance(0x1000);
    assert!(matches!(loader.step(), LoadStep::Resolve(symbol) if symbol == "XOpenDisplay"));
    loader.advance(0x2000);
    assert!(matches!(loader.step(), LoadStep::Resolve(symbol) if symbol == "XCloseDisplay"));
    loader.advance(0x3000);
    assert!(matches!(loader.step(), LoadStep::Resolve(symbol) if symbol == "XPending"));
    loader.advance(0x4000);
    assert!(matches!(loader.step(), LoadStep::Finish));
    let library = loader.finish().unwrap().unwrap();
    assert_eq!(library.len(), 3);
    assert_eq!(library.address("XOpenDisplay"), Some(0x2000));
    assert_eq!(library.address("XCloseDisplay"), Some(0x3000));
    assert_eq!(library.address("XPending"), Some(0x4000));
    assert_eq!(library.address("XFlush"), None);
    assert_eq!(library.release(), 0x1000);
}

#[test]
fn load_without_symbols_ends_with_the_open() {
    let mut loader = Loader::load(Platform::Windows, "vulkan", Some("1"), Vec::new());
    assert!(matches!(loader.step(), LoadStep::Open(file) if file == "vulkan-1.dll"));
    loader.advance(7);
    assert!(matches!(loader.step(), LoadStep::Finish));
    let library = loader.finish().unwrap().unwrap();
    assert_eq!(library.len(), 0);
    assert_eq!(library.address("vkGetInstanceProcAddr"), None);
    assert_eq!(library.release(), 7);
}

#[test]
fn load_fails_where_the_library_cannot_be_opened() {
    let mut loader = Loader::load(Platform::Linux, "vulkan", Some("1"), symbols(&["vkGetInstanceProcAddr"]));
    assert!(matches!(loader.step(), LoadStep::Open(file) if file == "libvulkan.so.1"));
    loader.advance(0);
    assert!(matches!(loader.step(), LoadStep::Finish));
    assert!(matches!(loader.finish(), Some(Err(LibraryError::LoadLibraryError))));
}

#[test]
fn load_closes_the_library_before_it_reports_a_missing_symbol() {
    let mut loader = Loader::load(
        Platform::Linux,
        "X11",
        None,
        symbols(&["XOpenDisplay", "XNoSuchCall", "XPending"]),
    );
    let mut opened = 0;
    let mut closed = 0;
    let mut resolved = Vec::new();
    loop {
        match loader.step() {
            LoadStep::Open(_) => {
                opened += 1;
                loader.advance(0x1000);
            }
            LoadStep::Resolve(symbol) => {
                let address = if symbol == "XNoSuchCall" { 0 } else { 0x2000 };
                resolved.push(symbol);
                loader.advance(address);
            }
            LoadStep::Close => {
                closed += 1;
                loader.advance(0);
            }
            LoadStep::Finish => break,
        }
    }
    assert_eq!(opened, 1);
    assert_eq!(closed, 1);
    assert_eq!(resolved, vec!["XOpenDisplay".to_string(), "XNoSuchCall".to_string()]);
    match loader.finish() {
        Some(Err(LibraryError::LoadFunctionError(symbol))) => assert_eq!(symbol, "XNoSuchCall"),
        other => panic!("unexpected outcome: {:?}", other.map(|outcome| outcome.map(|_| ()))),
    }
}

#[test]
fn load_in_progress_has_no_outcome() {
    let mut loader = Loader::load(Platform::Linux, "X11", None, symbols(&["XOpenDisplay"]));
    loader.advance(0x1000);
    assert!(loader.finish().is_none());
}

#[test]
fn load_does_not_report_a_missing_symbol_before_the_close() {
    let mut loader = Loader::load(Platform::Linux, "X11", None, symbols(&["XOpenDisplay"]));
    loader.advance(0x1000);
    loader.advance(0);
    assert!(matches!(loader.step(), LoadStep::Close));
    assert!(loader.finish().is_none());
}

#[test]
fn finished_load_ignores_further_reports() {
    let mut loader = Loader::load(Platform::Linux, "X11", None, symbols(&["XOpenDisplay"]));
    loader.advance(0x1000);
    loader.advance(0x2000);
    loader.advance(0);
    loader.advance(0x3000);
    let library = loader.finish().unwrap().unwrap();
    assert_eq!(library.address("XOpenDisplay"), Some(0x2000));
}

#[test]
fn address_of_a_symbol_declared_twice_is_that_of_its_first_declaration() {
    let mut loader = Loader::load(Platform::Linux, "X11", None, symbols(&["XFlush", "XFlush"]));
    loader.advance(0x1000);
    loader.advance(0x2000);
    loader.advance(0x3000);
    let library = loader.finish().unwrap().unwrap();
    assert_eq!(library.address("XFlush"), Some(0x2000));
}

fn double(value: i32) -> i32 {
    value * 2
}

fn negate(value: i32) -> i32 {
    -value
}

fn increment(value: i32) -> i32 {
    value + 1
}

#[test]
fn call_through_the_library_reaches_the_function_resolved_for_the_symbol() {
    let functions: [(&str, fn(i32) -> i32); 3] =
        [("double", double), ("negate", negate), ("increment", increment)];
    let mut loader = Loader::load(
        Platform::Linux,
        "stub",
        None,
        symbols(&["increment", "double", "negate"]),
    );
    loop {
        match loader.step() {
            LoadStep::Open(_) => loader.advance(0x7000),
            LoadStep::Resolve(symbol) => {
                let place = functions.iter().position(|(name, _)| *name == symbol).unwrap();
                loader.advance(place + 1);
            }
            LoadStep::Close => loader.advance(0),
            LoadStep::Finish => break,
        }
    }
    let library = loader.finish().unwrap().unwrap();
    let mut calls = [0; 3];
    let mut call = |symbol: &str, argument: i32| {
        let place = library.address(symbol).unwrap() - 1;
        calls[place] += 1;
        functions[place].1(argument)
    };
    assert_eq!(call("negate", 5), -5);
    assert_eq!(call("double", 5), 10);
    assert_eq!(call("increment", 5), 6);
    assert_eq!(call("double", -4), -8);
    assert_eq!(calls, [2, 1, 1]);
}
