//! The app installer panel: the selection of catalog entries, the catalog
//! grouped by category, and what is done and logged for each selected app.
use vstd::prelude::*;

use crate::log::append_line;
use crate::order::{distinct_sorted, strictly_sorted, texts};
use crate::text::{chars_of, concat2, concat3, decimal, lit, u64_text};
use crate::winapp::{group_indices, in_group, Progress};

verus! {

/// A set of selected package ids (each held once).
pub struct Selection {
    ids: Vec<String>,
}

impl Selection {
    /// The selected ids.
    pub closed spec fn view(&self) -> Set<Seq<char>> {
        texts(self.ids@).to_set()
    }

    /// No id is held twice.
    pub closed spec fn wf(&self) -> bool {
        texts(self.ids@).no_duplicates()
    }

    /// Nothing selected.
    pub fn new() -> (r: Self)
        ensures
            r.wf(),
            r@ == Set::<Seq<char>>::empty(),
    {
        let r = Selection { ids: Vec::new() };
        assert(texts(r.ids@).to_set() =~= Set::<Seq<char>>::empty());
        r
    }

    fn position(&self, id: &str) -> (r: Option<usize>)
        ensures
            match r {
                Some(k) => k < self.ids@.len() && self.ids@[k as int]@ == id@,
                None => !texts(self.ids@).contains(id@),
            },
    {
        let target = lit(id);
        let mut k: usize = 0;
        while k < self.ids.len()
            invariant
                k <= self.ids@.len(),
                target@ == id@,
                forall|j: int| 0 <= j < k ==> self.ids@[j]@ != id@,
            decreases self.ids.len() - k,
        {
            if self.ids[k] == target {
                return Some(k);
            }
            k = k + 1;
        }
        assert forall|j: int| 0 <= j < texts(self.ids@).len() implies texts(self.ids@)[j] != id@ by {
            assert(texts(self.ids@)[j] == self.ids@[j]@);
        }
        None
    }

    /// Whether `id` is selected.
    pub fn contains(&self, id: &str) -> (r: bool)
        ensures
            r == self@.contains(id@),
    {
        match self.position(id) {
            Some(k) => {
                assert(texts(self.ids@)[k as int] == id@);
                true
            },
            None => false,
        }
    }

    /// Selects `id`.
    pub fn insert(&mut self, id: &str)
        requires
            old(self).wf(),
        ensures
            final(self).wf(),
            final(self)@ == old(self)@.insert(id@),
    {
        if self.contains(id) {
            assert(self@.insert(id@) =~= self@);
            return;
        }
        let ghost before = texts(self.ids@);
        self.ids.push(lit(id));
        assert(texts(self.ids@) =~= before.push(id@));
        proof {
            before.lemma_push_to_set_commute(id@);
            assert forall|i: int, j: int| 0 <= i < j < before.len() + 1 implies before.push(id@)[i] != before.push(
                id@,
            )[j] by {
                if j == before.len() {
                    assert(before.contains(before[i]));
                }
            }
        }
    }

    /// Unselects `id`.
    pub fn remove(&mut self, id: &str)
        requires
            old(self).wf(),
        ensures
            final(self).wf(),
            final(self)@ == old(self)@.remove(id@),
    {
        match self.position(id) {
            None => {
                assert(self@.remove(id@) =~= self@);
            },
            Some(k) => {
                let ghost before = texts(self.ids@);
                self.ids.remove(k);
                let ghost after = texts(self.ids@);
                assert(after =~= before.remove(k as int));
                assert forall|x: Seq<char>| after.contains(x) <==> before.to_set().remove(id@).contains(x) by {
                    if after.contains(x) {
                        let i = choose|i: int| 0 <= i < after.len() && after[i] == x;
                        let bi = if i < k { i } else { i + 1 };
                        assert(before[bi] == x);
                        assert(before[k as int] == id@);
                        assert(bi != k);
                        assert(x != id@);
                        assert(before.contains(x));
                        assert(before.to_set().contains(x));
                    }
                    if before.to_set().remove(id@).contains(x) {
                        let i = choose|i: int| 0 <= i < before.len() && before[i] == x;
                        assert(i != k);
                        if i < k {
                            assert(after[i] == x);
                        } else {
                            assert(after[i - 1] == x);
                        }
                    }
                }
                assert(after.to_set() =~= before.to_set().remove(id@));
                assert forall|i: int, j: int| 0 <= i < j < after.len() implies after[i] != after[j] by {
                    let bi = if i < k { i } else { i + 1 };
                    let bj = if j < k { j } else { j + 1 };
                    assert(after[i] == before[bi]);
                    assert(after[j] == before[bj]);
                }
            },
        }
    }

    /// Unselects everything.
    pub fn clear(&mut self)
        ensures
            final(self).wf(),
            final(self)@ == Set::<Seq<char>>::empty(),
    {
        self.ids = Vec::new();
        assert(texts(self.ids@).to_set() =~= Set::<Seq<char>>::empty());
    }

    /// How many ids are selected.
    pub fn len(&self) -> (r: usize)
        requires
            self.wf(),
        ensures
            r == self@.len(),
    {
        proof {
            texts(self.ids@).unique_seq_to_set();
        }
        self.ids.len()
    }
}

/// A catalog entry as the panel lists it: name, package id, category.
pub struct CatalogEntry {
    pub name: String,
    pub winget_id: String,
    pub category: String,
}

/// The catalog entries whose id is selected, in catalog order, as name and id.
pub open spec fn picked(cat: Seq<CatalogEntry>, sel: Set<Seq<char>>) -> Seq<(Seq<char>, Seq<char>)>
    decreases cat.len(),
{
    if cat.len() == 0 {
        seq![]
    } else {
        let e = cat.last();
        picked(cat.drop_last(), sel) + if sel.contains(e.winget_id@) {
            seq![(e.name@, e.winget_id@)]
        } else {
            seq![]
        }
    }
}

/// The view of a list of name and id pairs.
pub open spec fn pairs_text(v: Seq<(String, String)>) -> Seq<(Seq<char>, Seq<char>)> {
    v.map_values(|p: (String, String)| (p.0@, p.1@))
}

/// The selected catalog entries, in catalog order, as name and id.
pub fn picked_items(catalog: &Vec<CatalogEntry>, sel: &Selection) -> (r: Vec<(String, String)>)
    ensures
        pairs_text(r@) == picked(catalog@, sel@),
{
    let mut r: Vec<(String, String)> = Vec::new();
    let mut i: usize = 0;
    while i < catalog.len()
        invariant
            i <= catalog.len(),
            pairs_text(r@) == picked(catalog@.subrange(0, i as int), sel@),
        decreases catalog.len() - i,
    {
        assert(catalog@.subrange(0, i + 1).drop_last() =~= catalog@.subrange(0, i as int));
        let ghost before = pairs_text(r@);
        let e = &catalog[i];
        if sel.contains(e.winget_id.as_str()) {
            let name = lit(e.name.as_str());
            let id = lit(e.winget_id.as_str());
            r.push((name, id));
            assert(pairs_text(r@) =~= before + seq![(e.name@, e.winget_id@)]);
        } else {
            assert(pairs_text(r@) =~= before + Seq::<(Seq<char>, Seq<char>)>::empty());
        }
        i = i + 1;
    }
    assert(catalog@.subrange(0, catalog.len() as int) =~= catalog@);
    r
}

/// What the panel does to the selected apps.
#[derive(Clone, Copy)]
pub enum Action {
    Install,
    Uninstall,
    Update,
}

/// Whether `winget` is run for an app, and the line logged about it: an app is
/// installed only when it is missing, and removed or updated only when present.
pub open spec fn step_of(what: Action, installed: bool, name: Seq<char>) -> (bool, Seq<char>) {
    match what {
        Action::Install => if installed {
            (false, "ℹ "@ + name + " already installed. Skipping."@)
        } else {
            (true, "⬇ Installing "@ + name + "..."@)
        },
        Action::Uninstall => if installed {
            (true, "🗑 Uninstalling "@ + name + "..."@)
        } else {
            (false, "ℹ "@ + name + " not found. Skipping."@)
        },
        Action::Update => if installed {
            (true, "⤴ Updating "@ + name + "..."@)
        } else {
            (false, "ℹ "@ + name + " not installed. Skipping update."@)
        },
    }
}

/// Whether `winget` is run for the app `name`, and the line logged about it.
pub fn install_step(what: Action, installed: bool, name: &str) -> (r: (bool, String))
    ensures
        (r.0, r.1@) == step_of(what, installed, name@),
{
    match what {
        Action::Install => if installed {
            (false, concat3("ℹ ", name, " already installed. Skipping."))
        } else {
            (true, concat3("⬇ Installing ", name, "..."))
        },
        Action::Uninstall => if installed {
            (true, concat3("🗑 Uninstalling ", name, "..."))
        } else {
            (false, concat3("ℹ ", name, " not found. Skipping."))
        },
        Action::Update => if installed {
            (true, concat3("⤴ Updating ", name, "..."))
        } else {
            (false, concat3("ℹ ", name, " not installed. Skipping update."))
        },
    }
}

/// The `winget` arguments of an action on package `id`.
pub open spec fn winget_args_of(what: Action, id: Seq<char>) -> Seq<Seq<char>> {
    match what {
        Action::Install => seq![
            "install"@,
            "--id"@,
            id,
            "-e"@,
            "--silent"@,
            "--accept-package-agreements"@,
            "--accept-source-agreements"@,
        ],
        Action::Uninstall => seq!["uninstall"@, "--id"@, id, "-e"@, "--silent"@],
        Action::Update => seq![
            "upgrade"@,
            "--id"@,
            id,
            "-e"@,
            "--silent"@,
            "--accept-package-agreements"@,
            "--accept-source-agreements"@,
        ],
    }
}

/// The `winget` arguments of an action on package `id`.
pub fn winget_args(what: Action, id: &str) -> (r: Vec<String>)
    ensures
        texts(r@) == winget_args_of(what, id@),
{
    let r = match what {
        Action::Install => vec![
            lit("install"),
            lit("--id"),
            lit(id),
            lit("-e"),
            lit("--silent"),
            lit("--accept-package-agreements"),
            lit("--accept-source-agreements"),
        ],
        Action::Uninstall => vec![lit("uninstall"), lit("--id"), lit(id), lit("-e"), lit("--silent")],
        Action::Update => vec![
            lit("upgrade"),
            lit("--id"),
            lit(id),
            lit("-e"),
            lit("--silent"),
            lit("--accept-package-agreements"),
            lit("--accept-source-agreements"),
        ],
    };
    assert(texts(r@) =~= winget_args_of(what, id@));
    r
}

/// The `winget` arguments that ask whether package `id` is installed.
pub fn winget_list_args(id: &str) -> (r: Vec<String>)
    ensures
        texts(r@) == seq!["list"@, "--id"@, id@, "-e"@],
{
    let r = vec![lit("list"), lit("--id"), lit(id), lit("-e")];
    assert(texts(r@) =~= seq!["list"@, "--id"@, id@, "-e"@]);
    r
}

/// Logs whether `winget` is available; when it is not, the Store page of App
/// Installer is opened and the user is asked to install it.
pub fn winget_ready_log(log: &mut String, available: bool)
    ensures
        available ==> final(log)@ == old(log)@ + "✅ winget available."@ + seq!['\n'],
        !available ==> final(log)@ == old(log)@
            + "⚠ winget not found. Attempting to help you install 'App Installer' (Microsoft Store)..."@ + seq!['\n']
            + "Please install/update 'App Installer' from the Store, then retry."@ + seq!['\n'],
{
    if available {
        crate::log::push_line(log, "✅ winget available.");
    } else {
        crate::log::push_line(log, "⚠ winget not found. Attempting to help you install 'App Installer' (Microsoft Store)...");
        crate::log::push_line(log, "Please install/update 'App Installer' from the Store, then retry.");
    }
}

/// `items` joined with single spaces.
pub open spec fn spaced(items: Seq<Seq<char>>) -> Seq<char>
    decreases items.len(),
{
    if items.len() == 0 {
        seq![]
    } else if items.len() == 1 {
        items[0]
    } else {
        spaced(items.drop_last()) + seq![' '] + items.last()
    }
}

/// The prefix of the streamed lines of a command: the program and its arguments.
pub fn stream_prefix(cmd: &str, args: &Vec<String>) -> (r: String)
    ensures
        r@ == cmd@ + seq![' '] + spaced(texts(args@)),
{
    let mut joined = String::new();
    let mut i: usize = 0;
    while i < args.len()
        invariant
            i <= args.len(),
            joined@ == spaced(texts(args@).subrange(0, i as int)),
        decreases args.len() - i,
    {
        assert(texts(args@).subrange(0, i + 1).drop_last() =~= texts(args@).subrange(0, i as int));
        if i > 0 {
            joined.append(" ");
            proof {
                reveal_strlit(" ");
            }
        }
        joined.append(args[i].as_str());
        assert(texts(args@).subrange(0, i + 1).last() == args@[i as int]@);
        if i == 0 {
            assert(texts(args@).subrange(0, 1)[0] == args@[0]@);
        }
        i = i + 1;
    }
    assert(texts(args@).subrange(0, args.len() as int) =~= texts(args@));
    let mut r = concat2(cmd, " ");
    proof {
        reveal_strlit(" ");
    }
    r.append(joined.as_str());
    r
}

/// A streamed line of a command, tagged with its stream and the command.
pub fn stream_line(from_stderr: bool, prefix: &str, line: &str) -> (r: String)
    ensures
        r@ == (if from_stderr { "[ERR] ["@ } else { "[OUT] ["@ }) + prefix@ + "] "@ + line@,
{
    let mut r = if from_stderr {
        concat2("[ERR] [", prefix)
    } else {
        concat2("[OUT] [", prefix)
    };
    r.append("] ");
    r.append(line);
    r
}

/// The categories of the catalog entries, in order.
pub open spec fn categories(cat: Seq<CatalogEntry>) -> Seq<Seq<char>> {
    cat.map_values(|e: CatalogEntry| e.category@)
}

/// The category names of a grouping, in order.
pub open spec fn group_keys(g: Seq<(String, Vec<usize>)>) -> Seq<Seq<char>> {
    g.map_values(|p: (String, Vec<usize>)| p.0@)
}

/// The distinct categories in order, each with the catalog positions under it.
pub fn catalog_by_category(catalog: &Vec<CatalogEntry>) -> (r: Vec<(String, Vec<usize>)>)
    ensures
        strictly_sorted(group_keys(r@)),
        forall|x: Seq<char>| group_keys(r@).contains(x) <==> categories(catalog@).contains(x),
        forall|k: int| 0 <= k < r@.len() ==> (#[trigger] r@[k]).1@.map_values(|i: usize| i as int) == in_group(
            categories(catalog@),
            r@[k].0@,
        ),
{
    let mut cats: Vec<String> = Vec::new();
    let mut i: usize = 0;
    while i < catalog.len()
        invariant
            i <= catalog.len(),
            texts(cats@) == categories(catalog@).subrange(0, i as int),
        decreases catalog.len() - i,
    {
        let c = lit(catalog[i].category.as_str());
        let ghost before = texts(cats@);
        cats.push(c);
        assert(texts(cats@) =~= before.push(catalog@[i as int].category@));
        i = i + 1;
    }
    let ghost cv = categories(catalog@);
    assert(cv.subrange(0, catalog.len() as int) =~= cv);
    let keys = distinct_sorted(&cats);
    let mut r: Vec<(String, Vec<usize>)> = Vec::new();
    let mut k: usize = 0;
    while k < keys.len()
        invariant
            k <= keys.len(),
            texts(cats@) == cv,
            group_keys(r@) == texts(keys@).subrange(0, k as int),
            forall|j: int| 0 <= j < r@.len() ==> (#[trigger] r@[j]).1@.map_values(|i: usize| i as int) == in_group(
                cv,
                r@[j].0@,
            ),
        decreases keys.len() - k,
    {
        let g = group_indices(&cats, &keys[k]);
        let key = lit(keys[k].as_str());
        let ghost before = group_keys(r@);
        r.push((key, g));
        assert(group_keys(r@) =~= before.push(keys@[k as int]@));
        assert(texts(keys@).subrange(0, k + 1) =~= texts(keys@).subrange(0, k as int).push(keys@[k as int]@));
        k = k + 1;
    }
    assert(texts(keys@).subrange(0, keys.len() as int) =~= texts(keys@));
    assert(group_keys(r@) =~= texts(keys@));
    r
}

/// The panel's header when idle: how many apps are selected, or a hint.
pub fn selection_header(n: usize) -> (r: String)
    ensures
        n > 0 ==> r@ == "Selected: "@ + decimal(n as nat) + " apps"@,
        n == 0 ==> r@ == "Select apps then choose an action."@,
{
    if n > 0 {
        concat3("Selected: ", u64_text(n as u64).as_str(), " apps")
    } else {
        lit("Select apps then choose an action.")
    }
}

/// Ends a run over the selection: all done, labelled `Done`, not running.
pub fn install_progress_done(p: &mut Progress)
    ensures
        !final(p).running,
        final(p).current == old(p).total,
        final(p).total == old(p).total,
        final(p).label@ == "Done"@,
{
    p.current = p.total;
    p.label = lit("Done");
    p.running = false;
}

/// Logs the end of a run over the selection.
pub fn install_finished_log(log: &mut String)
    ensures
        final(log)@ == crate::log::with_line(old(log)@, "✅ Finished processing selection."@),
{
    append_line(log, "✅ Finished processing selection.");
}

/// Checking an app's box and unchecking it again leaves the selection as it was
/// when the app was not selected before; checking is idempotent.
pub proof fn lemma_check_uncheck_round_trip(sel: Set<Seq<char>>, id: Seq<char>)
    ensures
        !sel.contains(id) ==> sel.insert(id).remove(id) == sel,
        sel.insert(id).insert(id) == sel.insert(id),
        sel.insert(id).contains(id),
        !sel.remove(id).contains(id),
{
    assert(!sel.contains(id) ==> sel.insert(id).remove(id) =~= sel);
    assert(sel.insert(id).insert(id) =~= sel.insert(id));
}

} // verus!
