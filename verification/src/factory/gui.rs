//! Widgets for two desktops: a factory makes the button and the checkbox
//! that belong together.
use vstd::prelude::*;

verus! {

/// A button.
pub trait Button {
    /// The line that rendering gives.
    spec fn rendering(&self) -> Seq<char>;

    /// Renders the button and returns the line that says so.
    fn render(&self) -> (line: String)
        ensures
            line@ == self.rendering(),
    ;
}

/// A checkbox.
pub trait Checkbox {
    /// The line that rendering gives.
    spec fn rendering(&self) -> Seq<char>;

    /// Renders the checkbox and returns the line that says so.
    fn render(&self) -> (line: String)
        ensures
            line@ == self.rendering(),
    ;
}

/// The button of Windows.
#[derive(Debug)]
pub struct WindowsButton;

impl Button for WindowsButton {
    open spec fn rendering(&self) -> Seq<char> {
        "Rendering Windows button"@
    }

    fn render(&self) -> (line: String) {
        "Rendering Windows button".to_string()
    }
}

/// The button of macOS.
#[derive(Debug)]
pub struct MacOSButton;

impl Button for MacOSButton {
    open spec fn rendering(&self) -> Seq<char> {
        "Rendering MacOS button"@
    }

    fn render(&self) -> (line: String) {
        "Rendering MacOS button".to_string()
    }
}

/// The checkbox of Windows.
#[derive(Debug)]
pub struct WindowsCheckbox;

impl Checkbox for WindowsCheckbox {
    open spec fn rendering(&self) -> Seq<char> {
        "Rendering Windows checkbox"@
    }

    fn render(&self) -> (line: String) {
        "Rendering Windows checkbox".to_string()
    }
}

/// The checkbox of macOS.
#[derive(Debug)]
pub struct MacOSCheckbox;

impl Checkbox for MacOSCheckbox {
    open spec fn rendering(&self) -> Seq<char> {
        "Rendering MacOS checkbox"@
    }

    fn render(&self) -> (line: String) {
        "Rendering MacOS checkbox".to_string()
    }
}

/// Makes the widgets of one desktop.
pub trait GUIFactory {
    /// The button this factory makes.
    type Button: Button;

    /// The checkbox this factory makes.
    type Checkbox: Checkbox;

    /// Makes a button.
    fn create_button(&self) -> (button: Self::Button);

    /// Makes a checkbox.
    fn create_checkbox(&self) -> (checkbox: Self::Checkbox);
}

/// Makes the widgets of Windows.
#[derive(Debug)]
pub struct WindowsFactory;

impl GUIFactory for WindowsFactory {
    type Button = WindowsButton;

    type Checkbox = WindowsCheckbox;

    fn create_button(&self) -> (button: WindowsButton)
        ensures
            button == WindowsButton,
    {
        WindowsButton
    }

    fn create_checkbox(&self) -> (checkbox: WindowsCheckbox)
        ensures
            checkbox == WindowsCheckbox,
    {
        WindowsCheckbox
    }
}

/// Makes the widgets of macOS.
#[derive(Debug)]
pub struct MacOSFactory;

impl GUIFactory for MacOSFactory {
    type Button = MacOSButton;

    type Checkbox = MacOSCheckbox;

    fn create_button(&self) -> (button: MacOSButton)
        ensures
            button == MacOSButton,
    {
        MacOSButton
    }

    fn create_checkbox(&self) -> (checkbox: MacOSCheckbox)
        ensures
            checkbox == MacOSCheckbox,
    {
        MacOSCheckbox
    }
}

} // verus!
