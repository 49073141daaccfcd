use crate::builder::native::{module_crate, module_functions, module_marked, module_with_crate};
use crate::errors::BuilderErrors;
use crate::text::text_eq;
use vstd::prelude::*;

verus! {

/// The rank of a docked surface among the others.
#[derive(Debug, Clone, Copy, PartialEq, Eq, Structural)]
pub enum Layer {
    Background,
    Bottom,
    Top,
    Overlay,
}

/// An edge of the screen to which a docked surface can be anchored.
#[derive(Debug, Clone, Copy, PartialEq, Eq, Structural)]
pub enum Edge {
    Left,
    Right,
    Top,
    Bottom,
}

/// The layer that `name` names, if it names one.
pub open spec fn layer_named(name: Seq<char>) -> Option<Layer> {
    if name == "Top"@ {
        Some(Layer::Top)
    } else if name == "Bottom"@ {
        Some(Layer::Bottom)
    } else if name == "Overlay"@ {
        Some(Layer::Overlay)
    } else if name == "Background"@ {
        Some(Layer::Background)
    } else {
        None
    }
}

/// What the script can ask of a docked surface.
#[derive(Debug, Clone, Copy, PartialEq, Eq, Structural)]
pub enum LayerShellFunction {
    /// Present the window as a docked surface.
    InitLayerShell,
    /// Anchor the surface to edges of the screen.
    SetAnchors,
}

/// The function of the layer shell module that `name` names, if any.
pub open spec fn layer_shell_function_named(name: Seq<char>) -> Option<LayerShellFunction> {
    if name == "init_layer_shell"@ {
        Some(LayerShellFunction::InitLayerShell)
    } else if name == "set_anchors"@ {
        Some(LayerShellFunction::SetAnchors)
    } else {
        None
    }
}

/// How the window is to be presented as a docked surface.
pub struct LayerShellSetup {
    /// The namespace of the surface.
    pub namespace: String,
    /// Whether the surface keeps an exclusive zone of its own size.
    pub exclusive_zone: bool,
    /// The rank of the surface.
    pub layer: Layer,
}

/// The functions of the script's scope that present the window as a docked
/// surface.
pub struct LayerShellCrate;

impl LayerShellCrate {
    /// The name of the module in the script's scope.
    pub fn crate_name() -> (name: &'static str)
        ensures
            name@ == "LayerShell"@,
    {
        "LayerShell"
    }

    /// Builds the Layer Shell Module: a module for the crate `LayerShell`
    /// that offers nothing yet, to which the caller adds the functions that
    /// work on the window. It fails where rune cannot allocate.
    pub fn build() -> (module: Result<rune::Module, rune::ContextError>)
        ensures
            module matches Ok(m) ==> module_crate(m) == "LayerShell"@ && module_functions(m).len()
                == 0 && !module_marked(m),
    {
        proof {
            reveal_strlit("LayerShell");
        }
        module_with_crate(Self::crate_name())
    }

    /// The name under which the script finds `function`.
    pub fn name(function: LayerShellFunction) -> (name: &'static str)
        ensures
            layer_shell_function_named(name@) == Some(function),
    {
        proof {
            reveal_strlit("init_layer_shell");
            reveal_strlit("set_anchors");
            assert("init_layer_shell"@.len() != "set_anchors"@.len());
        }
        match function {
            LayerShellFunction::InitLayerShell => "init_layer_shell",
            LayerShellFunction::SetAnchors => "set_anchors",
        }
    }

    /// The function that the script means by `name`.
    pub fn lookup(name: &str) -> (function: Option<LayerShellFunction>)
        ensures
            function == layer_shell_function_named(name@),
    {
        if text_eq(name, "init_layer_shell") {
            Some(LayerShellFunction::InitLayerShell)
        } else if text_eq(name, "set_anchors") {
            Some(LayerShellFunction::SetAnchors)
        } else {
            None
        }
    }

    /// The layer that `name` names.
    pub fn parse_layer(name: &str) -> (layer: Result<Layer, BuilderErrors>)
        ensures
            layer == match layer_named(name@) {
                Some(l) => Ok::<Layer, BuilderErrors>(l),
                None => Err::<Layer, BuilderErrors>(BuilderErrors::InvalidLayer),
            },
    {
        if text_eq(name, "Top") {
            Ok(Layer::Top)
        } else if text_eq(name, "Bottom") {
            Ok(Layer::Bottom)
        } else if text_eq(name, "Overlay") {
            Ok(Layer::Overlay)
        } else if text_eq(name, "Background") {
            Ok(Layer::Background)
        } else {
            Err(BuilderErrors::InvalidLayer)
        }
    }

    /// What `init_layer_shell` asks of the window: the namespace is the
    /// script's path, and the layer is the one that `layer` names. A name
    /// that names no layer is refused, and then nothing is asked.
    pub fn init_layer_shell(enable_exclusive_zone: bool, layer: &str, script_relative_path: String)
        -> (setup: Result<LayerShellSetup, BuilderErrors>)
        ensures
            match setup {
                Ok(s) => layer_named(layer@) == Some(s.layer) && s.exclusive_zone
                    == enable_exclusive_zone && s.namespace@ == script_relative_path@,
                Err(e) => layer_named(layer@) is None && e == BuilderErrors::InvalidLayer,
            },
    {
        let layer = Self::parse_layer(layer)?;
        Ok(
            LayerShellSetup {
                namespace: script_relative_path,
                exclusive_zone: enable_exclusive_zone,
                layer,
            },
        )
    }

    /// What `set_anchors` asks of the window: for each edge whether the
    /// surface is anchored to it, in the order left, right, top, bottom.
    pub fn set_anchors(left: bool, right: bool, top: bool, bottom: bool) -> (anchors: Vec<
        (Edge, bool),
    >)
        ensures
            anchors@ == seq![
                (Edge::Left, left),
                (Edge::Right, right),
                (Edge::Top, top),
                (Edge::Bottom, bottom),
            ],
    {
        let mut anchors: Vec<(Edge, bool)> = Vec::new();
        anchors.push((Edge::Left, left));
        anchors.push((Edge::Right, right));
        anchors.push((Edge::Top, top));
        anchors.push((Edge::Bottom, bottom));
        anchors
    }
}

} // verus!
