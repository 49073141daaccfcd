use crisp::builder::fs_crate::{FileSystemCrate, FileSystemFunction};
use crisp::builder::layer_shell_crate::{Edge, Layer, LayerShellCrate, LayerShellFunction};
use crisp::config::{Config, CRISP_AS_LAYERSHELL, SCRIPT_FILE, STYLESHEET};
use crisp::errors::BuilderErrors;
use crisp::text::text_eq;

#[test]
fn layers_by_name() {
    assert_eq!(LayerShellCrate::parse_layer("Top"), Ok(Layer::Top));
    assert_eq!(LayerShellCrate::parse_layer("Bottom"), Ok(Layer::Bottom));
    assert_eq!(LayerShellCrate::parse_layer("Overlay"), Ok(Layer::Overlay));
    assert_eq!(LayerShellCrate::parse_layer("Background"), Ok(Layer::Background));
    assert_eq!(LayerShellCrate::parse_layer("top"), Err(BuilderErrors::InvalidLayer));
    assert_eq!(LayerShellCrate::parse_layer(""), Err(BuilderErrors::InvalidLayer));
    assert_eq!(LayerShellCrate::parse_layer("Top "), Err(BuilderErrors::InvalidLayer));
}

#[test]
fn layer_shell_setup() {
    let setup = LayerShellCrate::init_layer_shell(true, "Overlay", "bar.rn".to_owned()).unwrap();
    assert_eq!(setup.namespace, "bar.rn");
    assert!(setup.exclusive_zone);
    assert_eq!(setup.layer, Layer::Overlay);
    let setup = LayerShellCrate::init_layer_shell(false, "Background", String::new()).unwrap();
    assert!(!setup.exclusive_zone);
    assert_eq!(setup.layer, Layer::Background);
    let refused = LayerShellCrate::init_layer_shell(true, "Middle", "bar.rn".to_owned());
    assert_eq!(refused.err(), Some(BuilderErrors::InvalidLayer));
}

#[test]
fn anchors_come_in_the_order_left_right_top_bottom() {
    assert_eq!(
        LayerShellCrate::set_anchors(true, false, true, false),
        vec![(Edge::Left, true), (Edge::Right, false), (Edge::Top, true), (Edge::Bottom, false)]
    );
    assert_eq!(
        LayerShellCrate::set_anchors(false, true, false, true),
        vec![(Edge::Left, false), (Edge::Right, true), (Edge::Top, false), (Edge::Bottom, true)]
    );
}

#[test]
fn file_system_catalog() {
    assert_eq!(FileSystemCrate::crate_name(), "FileSystem");
    assert_eq!(FileSystemCrate::name(FileSystemFunction::Read), "read");
    assert_eq!(FileSystemCrate::name(FileSystemFunction::Write), "write");
    assert_eq!(FileSystemCrate::lookup("read"), Some(FileSystemFunction::Read));
    assert_eq!(FileSystemCrate::lookup("write"), Some(FileSystemFunction::Write));
    assert_eq!(FileSystemCrate::lookup("remove"), None);
}

#[test]
fn script_information() {
    assert_eq!(SCRIPT_FILE, "SCRIPT_FILE");
    assert_eq!(CRISP_AS_LAYERSHELL, "CRISP_AS_LAYERSHELL");
    assert_eq!(STYLESHEET, "STYLESHEET");
    let info = Config::get_script_information(
        "bar.rn".to_owned(),
        Some("1".to_owned()),
        "pub fn main() {}".to_owned(),
    );
    assert_eq!(info, ("bar.rn".to_owned(), true, "pub fn main() {}".to_owned()));
    for flag in [None, Some(""), Some("0"), Some("true"), Some("11"), Some(" 1")] {
        let info = Config::get_script_information(
            "bar.rn".to_owned(),
            flag.map(|f| f.to_owned()),
            String::new(),
        );
        assert_eq!(info, ("bar.rn".to_owned(), false, String::new()));
    }
}

#[test]
fn texts_are_compared_by_their_characters() {
    assert!(text_eq("", ""));
    assert!(text_eq("abc", "abc"));
    assert!(!text_eq("abc", "abd"));
    assert!(!text_eq("abc", "ab"));
    assert!(!text_eq("ab", "abc"));
    assert!(text_eq("gr\u{fc}n", "gr\u{fc}n"));
    assert!(!text_eq("gr\u{fc}n", "grun"));
}

#[test]
fn layer_shell_catalog() {
    assert_eq!(LayerShellCrate::crate_name(), "LayerShell");
    assert_eq!(LayerShellCrate::name(LayerShellFunction::InitLayerShell), "init_layer_shell");
    assert_eq!(LayerShellCrate::name(LayerShellFunction::SetAnchors), "set_anchors");
    assert_eq!(
        LayerShellCrate::lookup("init_layer_shell"),
        Some(LayerShellFunction::InitLayerShell)
    );
    assert_eq!(LayerShellCrate::lookup("set_anchors"), Some(LayerShellFunction::SetAnchors));
    assert_eq!(LayerShellCrate::lookup("set_layer"), None);
}

#[test]
fn module_names() {
    assert_eq!(crisp::builder::catalog::crate_name(), "GTK");
    assert_eq!(crisp::builder::stdext_crate::STDExtCrate::crate_name(), "std");
}

#[test]
fn empty_modules_can_be_installed_side_by_side() {
    let mut context = rune::Context::with_default_modules().unwrap();
    assert!(context.install(crisp::builder::catalog::build().unwrap()).is_ok());
    assert!(context.install(crisp::builder::catalog::build_system().unwrap()).is_ok());
    assert!(context.install(FileSystemCrate::build().unwrap()).is_ok());
    assert!(context.install(LayerShellCrate::build().unwrap()).is_ok());
}

fn answer_of(mut module: rune::Module, script: &str) -> i64 {
    module.function("probe", || 7i64).build().unwrap();
    let mut context = rune::Context::with_default_modules().unwrap();
    context.install(module).unwrap();
    let mut sources = rune::Sources::new();
    sources.insert(rune::Source::memory(script).unwrap()).unwrap();
    let unit = rune::prepare(&mut sources).with_context(&context).build().unwrap();
    let runtime = std::sync::Arc::new(context.runtime().unwrap());
    let mut vm = rune::Vm::new(runtime, std::sync::Arc::new(unit));
    rune::from_value(vm.call(["main"], ()).unwrap()).unwrap()
}

#[test]
fn built_modules_are_those_of_their_crates() {
    let gtk = crisp::builder::catalog::build().unwrap();
    assert_eq!(answer_of(gtk, "pub fn main() { GTK::probe() }"), 7);
    let system = crisp::builder::catalog::build_system().unwrap();
    assert_eq!(answer_of(system, "pub fn main() { System::probe() }"), 7);
    let files = FileSystemCrate::build().unwrap();
    assert_eq!(answer_of(files, "pub fn main() { FileSystem::probe() }"), 7);
    let layers = LayerShellCrate::build().unwrap();
    assert_eq!(answer_of(layers, "pub fn main() { LayerShell::probe() }"), 7);
    let extension = crisp::builder::stdext_crate::STDExtCrate::build().unwrap();
    assert_eq!(answer_of(extension, "pub fn main() { std::probe() + std::itol(1) }"), 8);
}
