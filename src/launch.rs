use vstd::prelude::*;
use crate::ready_set::{ReadySet, ReadySetError};
use crate::renderer::{DisplayMode, Renderer, RendererModel, TICK_MS};

verus! {

/// Where the images of a session come from.
#[derive(Debug, PartialEq, Eq)]
pub enum Source {
    /// A sample theme of this name, shown as it is.
    Theme(String),
    /// Images generated from the prompt stored under this key in the
    /// configuration.
    ConfigKey(String),
    /// Images generated from this prompt.
    Prompt(String),
}

/// Why a session could not start.
#[derive(Debug, Clone, Copy, PartialEq, Eq, Structural)]
pub enum LaunchError {
    /// More than one of theme, key and prompt was given.
    InvalidArguments,
}

/// The theme shown when no source is named.
pub open spec fn default_theme() -> Seq<char> {
    "cat"@
}

/// The source named by at most one of `theme`, `key` and `prompt`; with none
/// of them, the default theme.
pub open spec fn source_of(
    theme: Option<String>,
    key: Option<String>,
    prompt: Option<String>,
) -> Option<Source> {
    match (theme, key, prompt) {
        (Some(t), None, None) => Some(Source::Theme(t)),
        (None, Some(k), None) => Some(Source::ConfigKey(k)),
        (None, None, Some(p)) => Some(Source::Prompt(p)),
        _ => None,
    }
}

/// Picks the source of a session from the three ways of naming one; naming
/// more than one is refused.
pub fn select_source(theme: Option<String>, key: Option<String>, prompt: Option<String>) -> (r:
    Result<Source, LaunchError>)
    ensures
        theme is None && key is None && prompt is None ==> (r matches Ok(Source::Theme(t))
            && t@ == default_theme()),
        !(theme is None && key is None && prompt is None) ==> (match source_of(theme, key, prompt) {
            Some(s) => r == Ok::<Source, LaunchError>(s),
            None => r == Err::<Source, LaunchError>(LaunchError::InvalidArguments),
        }),
{
    match (theme, key, prompt) {
        (Some(t), None, None) => Ok(Source::Theme(t)),
        (None, Some(k), None) => Ok(Source::ConfigKey(k)),
        (None, None, Some(p)) => Ok(Source::Prompt(p)),
        (None, None, None) => {
            let t = String::from_str("cat");
            Ok(Source::Theme(t))
        },
        _ => Err(LaunchError::InvalidArguments),
    }
}

/// A slideshow ready to run: the items and the renderer's state.
pub struct Slideshow {
    pub items: ReadySet,
    pub renderer: Renderer,
}

/// Prepares a slideshow over `files`, at the first of them, drawn as ASCII art
/// if `ascii` is set, with the tick clock starting at `now_ms`. With no files
/// there is nothing to show and the slideshow is refused before anything runs.
pub fn run(files: Vec<String>, ascii: bool, now_ms: u64) -> (r: Result<Slideshow, ReadySetError>)
    ensures
        files@.len() == 0 <==> r is Err,
        r matches Err(e) ==> e == ReadySetError::NoItems,
        r matches Ok(s) ==> {
            &&& s.items@.items == files@
            &&& !s.items@.placeholder
            &&& s.items@.wf()
            &&& s.renderer@ == (RendererModel {
                cursor: 0,
                mode: if ascii { DisplayMode::Ascii } else { DisplayMode::Image },
                tick_ms: TICK_MS as nat,
                last_tick_ms: now_ms as nat,
            })
        },
{
    let items = match ReadySet::from_items(files) {
        Ok(s) => s,
        Err(e) => {
            return Err(e);
        },
    };
    let mode = if ascii { DisplayMode::Ascii } else { DisplayMode::Image };
    Ok(Slideshow { items, renderer: Renderer::new(mode, TICK_MS, now_ms) })
}

} // verus!
