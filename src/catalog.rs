use vstd::prelude::*;
use crate::text::same_text;

verus! {

/// The script type that marks a splitter as a module for the auto splitting
/// runtime, the only kind that can be loaded.
pub const AUTO_SPLITTING_RUNTIME: &'static str = "AutoSplittingRuntime";

/// The game names that one splitter applies to.
pub struct Games {
    pub games: Vec<String>,
}

/// The files that make up one splitter.
pub struct Urls {
    pub urls: Vec<String>,
}

/// One splitter definition of the catalog.
pub struct AutoSplitter {
    pub games: Games,
    pub urls: Urls,
    pub module_type: Option<String>,
    pub script_type: Option<String>,
    pub description: String,
    pub website: Option<String>,
}

/// The entries of a catalog document, in document order.
pub struct AutoSplitterList {
    pub auto_splitters: Vec<AutoSplitter>,
}

/// A loaded catalog: its entries and the verbatim document they came from.
pub struct List {
    pub inner: AutoSplitterList,
    pub source: String,
}

/// The game names of a splitter.
pub open spec fn game_names(a: AutoSplitter) -> Seq<Seq<char>> {
    a.games.games@.map_values(|g: String| g@)
}

/// The download URLs of a splitter.
pub open spec fn url_texts(a: AutoSplitter) -> Seq<Seq<char>> {
    a.urls.urls@.map_values(|u: String| u@)
}

/// A splitter applies to a game whose name is byte for byte one of its games.
pub open spec fn serves_game(a: AutoSplitter, name: Seq<char>) -> bool {
    game_names(a).contains(name)
}

/// Index `i` holds the first entry of `entries` that applies to `name`.
pub open spec fn is_first_for_game(entries: Seq<AutoSplitter>, name: Seq<char>, i: int) -> bool {
    &&& 0 <= i < entries.len()
    &&& serves_game(entries[i], name)
    &&& forall|k: int| 0 <= k < i ==> !serves_game(#[trigger] entries[k], name)
}

/// No entry of `entries` applies to `name`.
pub open spec fn none_for_game(entries: Seq<AutoSplitter>, name: Seq<char>) -> bool {
    forall|k: int| 0 <= k < entries.len() ==> !serves_game(#[trigger] entries[k], name)
}

/// A splitter is loadable when its script type is that of the auto
/// splitting runtime.
pub open spec fn uses_runtime(a: AutoSplitter) -> bool {
    a.script_type matches Some(t) && t@ == AUTO_SPLITTING_RUNTIME@
}

/// What the auto splitter panel tells about the splitter of a game.
pub enum SplitterInfo {
    /// The splitter's own description: it can be activated.
    Description(String),
    /// There is a splitter, but not for the auto splitting runtime.
    Incompatible,
    /// The catalog has no splitter for the game.
    Unavailable,
}

/// The state of the auto splitter panel for one game.
pub struct SplitterPanel {
    pub website_enabled: bool,
    pub activate_enabled: bool,
    pub info: SplitterInfo,
}

/// The panel for the first entry `e` of a game: the website button when
/// `e` has a website, activation and its description when `e` is loadable.
pub open spec fn panel_for_entry(p: SplitterPanel, e: AutoSplitter) -> bool {
    &&& p.website_enabled == e.website is Some
    &&& p.activate_enabled == uses_runtime(e)
    &&& if uses_runtime(e) {
        p.info matches SplitterInfo::Description(d) && d@ == e.description@
    } else {
        p.info is Incompatible
    }
}

impl Games {
    /// Whether `name` is, exactly, one of the game names.
    pub fn contains(&self, name: &str) -> (r: bool)
        ensures
            r == self.games@.map_values(|g: String| g@).contains(name@),
    {
        let ghost names = self.games@.map_values(|g: String| g@);
        let mut i: usize = 0;
        while i < self.games.len()
            invariant
                i <= self.games@.len(),
                names == self.games@.map_values(|g: String| g@),
                forall|k: int| 0 <= k < i ==> names[k] != name@,
            decreases self.games@.len() - i,
        {
            if same_text(self.games[i].as_str(), name) {
                assert(names[i as int] == name@);
                return true;
            }
            i = i + 1;
        }
        proof {
            if names.contains(name@) {
                let k = choose|k: int| 0 <= k < names.len() && names[k] == name@;
                assert(names[k] != name@);
            }
        }
        false
    }
}

impl AutoSplitter {
    /// Whether this splitter is a module for the auto splitting runtime.
    pub fn is_using_auto_splitting_runtime(&self) -> (r: bool)
        ensures
            r == uses_runtime(*self),
    {
        match &self.script_type {
            Some(t) => same_text(t.as_str(), AUTO_SPLITTING_RUNTIME),
            None => false,
        }
    }
}

impl AutoSplitterList {
    /// The first entry whose game names hold exactly `game_name`.
    pub fn find_for_game(&self, game_name: &str) -> (r: Option<&AutoSplitter>)
        ensures
            r is None <==> none_for_game(self.auto_splitters@, game_name@),
            r matches Some(e) ==> exists|i: int|
                is_first_for_game(self.auto_splitters@, game_name@, i)
                    && *e == self.auto_splitters@[i],
    {
        let mut i: usize = 0;
        while i < self.auto_splitters.len()
            invariant
                i <= self.auto_splitters@.len(),
                forall|k: int| 0 <= k < i ==> !serves_game(#[trigger] self.auto_splitters@[k], game_name@),
            decreases self.auto_splitters@.len() - i,
        {
            if self.auto_splitters[i].games.contains(game_name) {
                assert(is_first_for_game(self.auto_splitters@, game_name@, i as int));
                return Some(&self.auto_splitters[i]);
            }
            i = i + 1;
        }
        None
    }
}

impl List {
    /// A catalog without entries, whose document is empty.
    pub fn empty() -> (r: List)
        ensures
            r.inner.auto_splitters@.len() == 0,
            r.source@.len() == 0,
    {
        List { inner: AutoSplitterList { auto_splitters: Vec::new() }, source: String::new() }
    }

    /// The entries of this catalog.
    pub open spec fn entries(&self) -> Seq<AutoSplitter> {
        self.inner.auto_splitters@
    }

    /// The first entry whose game names hold exactly `game_name`; no case
    /// folding or trimming takes place.
    pub fn get_for_game(&self, game_name: &str) -> (r: Option<&AutoSplitter>)
        ensures
            r is None <==> none_for_game(self.entries(), game_name@),
            r matches Some(e) ==> exists|i: int|
                is_first_for_game(self.entries(), game_name@, i) && *e == self.entries()[i],
    {
        let r = self.inner.find_for_game(game_name);
        proof {
            if let Some(e) = r {
                let i = choose|i: int|
                    is_first_for_game(self.inner.auto_splitters@, game_name@, i)
                        && *e == self.inner.auto_splitters@[i];
                assert(is_first_for_game(self.entries(), game_name@, i));
            }
        }
        r
    }

    /// The website of the first entry for `game_name`, if that entry has one.
    pub fn get_website_for_game(&self, game_name: &str) -> (r: Option<&str>)
        ensures
            none_for_game(self.entries(), game_name@) ==> r is None,
            forall|i: int| is_first_for_game(self.entries(), game_name@, i) ==> {
                match self.entries()[i].website {
                    Some(w) => r matches Some(s) && s@ == w@,
                    None => r is None,
                }
            },
    {
        match self.get_for_game(game_name) {
            Some(e) => {
                proof {
                    let i = choose|i: int|
                        is_first_for_game(self.entries(), game_name@, i) && *e == self.entries()[i];
                    assert forall|j: int| is_first_for_game(self.entries(), game_name@, j) implies j == i by {
                        if j < i {
                            assert(!serves_game(self.entries()[j], game_name@));
                        } else if i < j {
                            assert(!serves_game(self.entries()[i], game_name@));
                        }
                    }
                }
                match &e.website {
                    Some(w) => Some(w.as_str()),
                    None => None,
                }
            },
            None => None,
        }
    }

    /// The state of the auto splitter panel for `game_name`.
    pub fn panel_for_game(&self, game_name: &str) -> (r: SplitterPanel)
        ensures
            none_for_game(self.entries(), game_name@) ==> !r.website_enabled && !r.activate_enabled
                && r.info is Unavailable,
            forall|i: int| is_first_for_game(self.entries(), game_name@, i) ==> panel_for_entry(r, self.entries()[i]),
    {
        match self.get_for_game(game_name) {
            Some(e) => {
                proof {
                    let i = choose|i: int|
                        is_first_for_game(self.entries(), game_name@, i) && *e == self.entries()[i];
                    assert forall|j: int| is_first_for_game(self.entries(), game_name@, j) implies j == i by {
                        if j < i {
                            assert(!serves_game(self.entries()[j], game_name@));
                        } else if i < j {
                            assert(!serves_game(self.entries()[i], game_name@));
                        }
                    }
                }
                let runtime = e.is_using_auto_splitting_runtime();
                let info = if runtime {
                    SplitterInfo::Description(e.description.clone())
                } else {
                    SplitterInfo::Incompatible
                };
                SplitterPanel { website_enabled: e.website.is_some(), activate_enabled: runtime, info }
            },
            None => SplitterPanel { website_enabled: false, activate_enabled: false, info: SplitterInfo::Unavailable },
        }
    }
}

} // verus!
