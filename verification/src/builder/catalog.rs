use crate::builder::native::{module_crate, module_functions, module_marked, module_with_crate};
use crate::builder::WidgetShape;
use crate::errors::BuilderErrors;
use crate::text::text_eq;
use vstd::prelude::*;

verus! {

/// The direction in which a box lays out its children.
#[derive(Debug, Clone, Copy, PartialEq, Eq, Structural)]
pub enum Orientation {
    Vertical,
    Horizontal,
}

/// How a widget is placed in the space that its parent gives it.
#[derive(Debug, Clone, Copy, PartialEq, Eq, Structural)]
pub enum Align {
    Start,
    Center,
    End,
    Fill,
}

/// What a function of the `GTK` module works on.
#[derive(Debug, Clone, Copy, PartialEq, Eq, Structural)]
pub enum Target {
    /// The top-level window.
    Window,
    /// The focus cursor.
    Cursor,
    /// A new box, placed in the focused container.
    NewBox(Orientation),
    /// A new label, placed in the focused container.
    NewLabel,
    /// A new button, placed in the focused container.
    NewButton,
    /// The focused widget, whatever its shape.
    Focused,
    /// The focused widget, seen under a shape.
    FocusedAs(WidgetShape),
}

/// The shape of the widget that a function creates, if it creates one.
pub open spec fn created_shape(target: Target) -> Option<WidgetShape> {
    match target {
        Target::NewBox(_) => Some(WidgetShape::Container),
        Target::NewLabel => Some(WidgetShape::Label),
        Target::NewButton => Some(WidgetShape::Button),
        _ => None,
    }
}

/// The catalog of the `GTK` module: what the function `name` works on, for
/// each name that the module offers.
pub open spec fn target_named(name: Seq<char>) -> Option<Target> {
    if name == "set_window_title"@ {
        Some(Target::Window)
    } else if name == "set_window_height_request"@ {
        Some(Target::Window)
    } else if name == "set_window_width_request"@ {
        Some(Target::Window)
    } else if name == "set_window_default_height"@ {
        Some(Target::Window)
    } else if name == "set_window_default_width"@ {
        Some(Target::Window)
    } else if name == "set_window_resizable"@ {
        Some(Target::Window)
    } else if name == "set_focused_widget"@ {
        Some(Target::Cursor)
    } else if name == "add_vertical_box"@ {
        Some(Target::NewBox(Orientation::Vertical))
    } else if name == "add_horizontal_box"@ {
        Some(Target::NewBox(Orientation::Horizontal))
    } else if name == "add_label"@ {
        Some(Target::NewLabel)
    } else if name == "add_button"@ {
        Some(Target::NewButton)
    } else if name == "set_visible"@ {
        Some(Target::Focused)
    } else if name == "set_opacity"@ {
        Some(Target::Focused)
    } else if name == "set_hexpand"@ {
        Some(Target::Focused)
    } else if name == "set_vexpand"@ {
        Some(Target::Focused)
    } else if name == "set_gtk_widget_name"@ {
        Some(Target::Focused)
    } else if name == "set_tooltip_text"@ {
        Some(Target::Focused)
    } else if name == "set_tooltip_markup"@ {
        Some(Target::Focused)
    } else if name == "get_width"@ {
        Some(Target::Focused)
    } else if name == "get_width_request"@ {
        Some(Target::Focused)
    } else if name == "get_height"@ {
        Some(Target::Focused)
    } else if name == "get_height_request"@ {
        Some(Target::Focused)
    } else if name == "get_opacity"@ {
        Some(Target::Focused)
    } else if name == "can_focus"@ {
        Some(Target::Focused)
    } else if name == "is_focus"@ {
        Some(Target::Focused)
    } else if name == "has_focus"@ {
        Some(Target::Focused)
    } else if name == "can_target"@ {
        Some(Target::Focused)
    } else if name == "is_visible"@ {
        Some(Target::Focused)
    } else if name == "is_focusable"@ {
        Some(Target::Focused)
    } else if name == "scale_factor"@ {
        Some(Target::Focused)
    } else if name == "set_margin_start"@ {
        Some(Target::Focused)
    } else if name == "set_margin_end"@ {
        Some(Target::Focused)
    } else if name == "set_size_request"@ {
        Some(Target::Focused)
    } else if name == "set_halign"@ {
        Some(Target::Focused)
    } else if name == "update_label_text"@ {
        Some(Target::FocusedAs(WidgetShape::Label))
    } else if name == "update_button_text"@ {
        Some(Target::FocusedAs(WidgetShape::Button))
    } else {
        None
    }
}

/// The names of all functions of the `GTK` module.
pub open spec fn function_catalog() -> Seq<Seq<char>> {
    seq![
        "set_window_title"@,
        "set_window_height_request"@,
        "set_window_width_request"@,
        "set_window_default_height"@,
        "set_window_default_width"@,
        "set_window_resizable"@,
        "set_focused_widget"@,
        "add_vertical_box"@,
        "add_horizontal_box"@,
        "add_label"@,
        "add_button"@,
        "set_visible"@,
        "set_opacity"@,
        "set_hexpand"@,
        "set_vexpand"@,
        "set_gtk_widget_name"@,
        "set_tooltip_text"@,
        "set_tooltip_markup"@,
        "get_width"@,
        "get_width_request"@,
        "get_height"@,
        "get_height_request"@,
        "get_opacity"@,
        "can_focus"@,
        "is_focus"@,
        "has_focus"@,
        "can_target"@,
        "is_visible"@,
        "is_focusable"@,
        "scale_factor"@,
        "set_margin_start"@,
        "set_margin_end"@,
        "set_size_request"@,
        "set_halign"@,
        "update_label_text"@,
        "update_button_text"@,
    ]
}

/// The alignment that `name` names, if it names one.
pub open spec fn align_named(name: Seq<char>) -> Option<Align> {
    if name == "Start"@ {
        Some(Align::Start)
    } else if name == "Center"@ {
        Some(Align::Center)
    } else if name == "End"@ {
        Some(Align::End)
    } else if name == "Fill"@ {
        Some(Align::Fill)
    } else {
        None
    }
}

/// The name of the module in the script's scope.
pub fn crate_name() -> (name: &'static str)
    ensures
        name@ == "GTK"@,
{
    "GTK"
}

/// Builds the `GTK` module: a module for the crate `GTK` that offers nothing
/// yet, to which the caller adds the functions of the catalog. It fails where
/// rune cannot allocate.
pub fn build() -> (module: Result<rune::Module, rune::ContextError>)
    ensures
        module matches Ok(m) ==> module_crate(m) == "GTK"@ && module_functions(m).len() == 0
            && !module_marked(m),
{
    proof {
        reveal_strlit("GTK");
    }
    module_with_crate(crate_name())
}

/// Builds the `System` module: a module for the crate `System`, which offers
/// nothing. It fails where rune cannot allocate.
pub fn build_system() -> (module: Result<rune::Module, rune::ContextError>)
    ensures
        module matches Ok(m) ==> module_crate(m) == "System"@ && module_functions(m).len() == 0
            && !module_marked(m),
{
    proof {
        reveal_strlit("System");
    }
    module_with_crate("System")
}

/// What the function `name` of the `GTK` module works on, if the module
/// offers a function of that name.
pub fn target_of(name: &str) -> (target: Option<Target>)
    ensures
        target == target_named(name@),
{
    if text_eq(name, "set_window_title") {
        Some(Target::Window)
    } else if text_eq(name, "set_window_height_request") {
        Some(Target::Window)
    } else if text_eq(name, "set_window_width_request") {
        Some(Target::Window)
    } else if text_eq(name, "set_window_default_height") {
        Some(Target::Window)
    } else if text_eq(name, "set_window_default_width") {
        Some(Target::Window)
    } else if text_eq(name, "set_window_resizable") {
        Some(Target::Window)
    } else if text_eq(name, "set_focused_widget") {
        Some(Target::Cursor)
    } else if text_eq(name, "add_vertical_box") {
        Some(Target::NewBox(Orientation::Vertical))
    } else if text_eq(name, "add_horizontal_box") {
        Some(Target::NewBox(Orientation::Horizontal))
    } else if text_eq(name, "add_label") {
        Some(Target::NewLabel)
    } else if text_eq(name, "add_button") {
        Some(Target::NewButton)
    } else if text_eq(name, "set_visible") {
        Some(Target::Focused)
    } else if text_eq(name, "set_opacity") {
        Some(Target::Focused)
    } else if text_eq(name, "set_hexpand") {
        Some(Target::Focused)
    } else if text_eq(name, "set_vexpand") {
        Some(Target::Focused)
    } else if text_eq(name, "set_gtk_widget_name") {
        Some(Target::Focused)
    } else if text_eq(name, "set_tooltip_text") {
        Some(Target::Focused)
    } else if text_eq(name, "set_tooltip_markup") {
        Some(Target::Focused)
    } else if text_eq(name, "get_width") {
        Some(Target::Focused)
    } else if text_eq(name, "get_width_request") {
        Some(Target::Focused)
    } else if text_eq(name, "get_height") {
        Some(Target::Focused)
    } else if text_eq(name, "get_height_request") {
        Some(Target::Focused)
    } else if text_eq(name, "get_opacity") {
        Some(Target::Focused)
    } else if text_eq(name, "can_focus") {
        Some(Target::Focused)
    } else if text_eq(name, "is_focus") {
        Some(Target::Focused)
    } else if text_eq(name, "has_focus") {
        Some(Target::Focused)
    } else if text_eq(name, "can_target") {
        Some(Target::Focused)
    } else if text_eq(name, "is_visible") {
        Some(Target::Focused)
    } else if text_eq(name, "is_focusable") {
        Some(Target::Focused)
    } else if text_eq(name, "scale_factor") {
        Some(Target::Focused)
    } else if text_eq(name, "set_margin_start") {
        Some(Target::Focused)
    } else if text_eq(name, "set_margin_end") {
        Some(Target::Focused)
    } else if text_eq(name, "set_size_request") {
        Some(Target::Focused)
    } else if text_eq(name, "set_halign") {
        Some(Target::Focused)
    } else if text_eq(name, "update_label_text") {
        Some(Target::FocusedAs(WidgetShape::Label))
    } else if text_eq(name, "update_button_text") {
        Some(Target::FocusedAs(WidgetShape::Button))
    } else {
        None
    }
}

/// The names of all functions of the `GTK` module.
pub fn function_names() -> (names: Vec<&'static str>)
    ensures
        names@.len() == function_catalog().len(),
        forall|i: int| 0 <= i < names@.len() ==> #[trigger] names@[i]@ == function_catalog()[i],
{
    let mut names: Vec<&'static str> = Vec::new();
    names.push("set_window_title");
    names.push("set_window_height_request");
    names.push("set_window_width_request");
    names.push("set_window_default_height");
    names.push("set_window_default_width");
    names.push("set_window_resizable");
    names.push("set_focused_widget");
    names.push("add_vertical_box");
    names.push("add_horizontal_box");
    names.push("add_label");
    names.push("add_button");
    names.push("set_visible");
    names.push("set_opacity");
    names.push("set_hexpand");
    names.push("set_vexpand");
    names.push("set_gtk_widget_name");
    names.push("set_tooltip_text");
    names.push("set_tooltip_markup");
    names.push("get_width");
    names.push("get_width_request");
    names.push("get_height");
    names.push("get_height_request");
    names.push("get_opacity");
    names.push("can_focus");
    names.push("is_focus");
    names.push("has_focus");
    names.push("can_target");
    names.push("is_visible");
    names.push("is_focusable");
    names.push("scale_factor");
    names.push("set_margin_start");
    names.push("set_margin_end");
    names.push("set_size_request");
    names.push("set_halign");
    names.push("update_label_text");
    names.push("update_button_text");
    names
}

/// The shape of the widget that a function creates, if it creates one.
pub fn shape_created_by(target: Target) -> (shape: Option<WidgetShape>)
    ensures
        shape == created_shape(target),
{
    match target {
        Target::NewBox(_) => Some(WidgetShape::Container),
        Target::NewLabel => Some(WidgetShape::Label),
        Target::NewButton => Some(WidgetShape::Button),
        _ => None,
    }
}

/// The alignment that `name` names.
pub fn parse_align(name: &str) -> (align: Result<Align, BuilderErrors>)
    ensures
        align == match align_named(name@) {
            Some(a) => Ok::<Align, BuilderErrors>(a),
            None => Err::<Align, BuilderErrors>(BuilderErrors::InvalidAlignment),
        },
{
    if text_eq(name, "Start") {
        Ok(Align::Start)
    } else if text_eq(name, "Center") {
        Ok(Align::Center)
    } else if text_eq(name, "End") {
        Ok(Align::End)
    } else if text_eq(name, "Fill") {
        Ok(Align::Fill)
    } else {
        Err(BuilderErrors::InvalidAlignment)
    }
}

/// The catalog is closed: a name has a target exactly where the catalog
/// lists it.
pub proof fn law_catalog_is_closed(name: Seq<char>)
    ensures
        target_named(name) is Some <==> function_catalog().contains(name),
{
    if name == "set_window_title"@ {
        assert(function_catalog()[0] == name);
    }
    if name == "set_window_height_request"@ {
        assert(function_catalog()[1] == name);
    }
    if name == "set_window_width_request"@ {
        assert(function_catalog()[2] == name);
    }
    if name == "set_window_default_height"@ {
        assert(function_catalog()[3] == name);
    }
    if name == "set_window_default_width"@ {
        assert(function_catalog()[4] == name);
    }
    if name == "set_window_resizable"@ {
        assert(function_catalog()[5] == name);
    }
    if name == "set_focused_widget"@ {
        assert(function_catalog()[6] == name);
    }
    if name == "add_vertical_box"@ {
        assert(function_catalog()[7] == name);
    }
    if name == "add_horizontal_box"@ {
        assert(function_catalog()[8] == name);
    }
    if name == "add_label"@ {
        assert(function_catalog()[9] == name);
    }
    if name == "add_button"@ {
        assert(function_catalog()[10] == name);
    }
    if name == "set_visible"@ {
        assert(function_catalog()[11] == name);
    }
    if name == "set_opacity"@ {
        assert(function_catalog()[12] == name);
    }
    if name == "set_hexpand"@ {
        assert(function_catalog()[13] == name);
    }
    if name == "set_vexpand"@ {
        assert(function_catalog()[14] == name);
    }
    if name == "set_gtk_widget_name"@ {
        assert(function_catalog()[15] == name);
    }
    if name == "set_tooltip_text"@ {
        assert(function_catalog()[16] == name);
    }
    if name == "set_tooltip_markup"@ {
        assert(function_catalog()[17] == name);
    }
    if name == "get_width"@ {
        assert(function_catalog()[18] == name);
    }
    if name == "get_width_request"@ {
        assert(function_catalog()[19] == name);
    }
    if name == "get_height"@ {
        assert(function_catalog()[20] == name);
    }
    if name == "get_height_request"@ {
        assert(function_catalog()[21] == name);
    }
    if name == "get_opacity"@ {
        assert(function_catalog()[22] == name);
    }
    if name == "can_focus"@ {
        assert(function_catalog()[23] == name);
    }
    if name == "is_focus"@ {
        assert(function_catalog()[24] == name);
    }
    if name == "has_focus"@ {
        assert(function_catalog()[25] == name);
    }
    if name == "can_target"@ {
        assert(function_catalog()[26] == name);
    }
    if name == "is_visible"@ {
        assert(function_catalog()[27] == name);
    }
    if name == "is_focusable"@ {
        assert(function_catalog()[28] == name);
    }
    if name == "scale_factor"@ {
        assert(function_catalog()[29] == name);
    }
    if name == "set_margin_start"@ {
        assert(function_catalog()[30] == name);
    }
    if name == "set_margin_end"@ {
        assert(function_catalog()[31] == name);
    }
    if name == "set_size_request"@ {
        assert(function_catalog()[32] == name);
    }
    if name == "set_halign"@ {
        assert(function_catalog()[33] == name);
    }
    if name == "update_label_text"@ {
        assert(function_catalog()[34] == name);
    }
    if name == "update_button_text"@ {
        assert(function_catalog()[35] == name);
    }
}

} // verus!
