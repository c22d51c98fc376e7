//! What the console shows: the prompt and lines printed around it.
use vstd::prelude::*;

verus! {

/// The console prompt.
pub fn prompt() -> (r: &'static str)
    ensures
        r@ == "germina> "@,
{
    "germina> "
}

/// What is written to print `message` as a line: with the prompt on screen, the line
/// overwrites it (`\r` first) and the prompt is written again after it.
pub fn render_line(message: &str, prompt_visible: bool) -> (r: String)
    ensures
        r@ == rendered_line(message@, prompt_visible),
{
    let mut s = String::new();
    if prompt_visible {
        s.append("\r");
    }
    s.append(message);
    s.append("\n");
    if prompt_visible {
        s.append(prompt());
    }
    assert(s@ =~= if prompt_visible {
        "\r"@ + message@ + "\n"@ + "germina> "@
    } else {
        message@ + "\n"@
    });
    s
}

/// The text written to print `message` as a line when the prompt is, or is not, on
/// screen.
pub open spec fn rendered_line(message: Seq<char>, prompt_visible: bool) -> Seq<char> {
    if prompt_visible {
        "\r"@ + message + "\n"@ + "germina> "@
    } else {
        message + "\n"@
    }
}

/// The console's state: whether the prompt is on screen.
pub struct Console {
    prompt_visible: bool,
}

impl View for Console {
    type V = bool;

    closed spec fn view(&self) -> bool {
        self.prompt_visible
    }
}

impl Console {
    /// A console with no prompt on screen.
    pub fn new() -> (r: Console)
        ensures
            !r@,
    {
        Console { prompt_visible: false }
    }

    /// Records whether the prompt is on screen.
    pub fn set_prompt_visible(&mut self, visible: bool)
        ensures
            final(self)@ == visible,
    {
        self.prompt_visible = visible;
    }

    /// Whether the prompt is on screen.
    pub fn prompt_visible(&self) -> (r: bool)
        ensures
            r == self@,
    {
        self.prompt_visible
    }

    /// The text written to show the prompt; the prompt is then on screen.
    pub fn print_prompt(&mut self) -> (r: &'static str)
        ensures
            r@ == "germina> "@,
            final(self)@,
    {
        self.prompt_visible = true;
        prompt()
    }

    /// The text written to print `message` as a line; whether the prompt is on screen
    /// does not change (it is drawn again after the line when it was).
    pub fn print_line(&self, message: &str) -> (r: String)
        ensures
            r@ == rendered_line(message@, self@),
    {
        render_line(message, self.prompt_visible)
    }
}

} // verus!
