//! Interactive controls: dropdown contents and selection, and the
//! heights and label sizes that controls are registered with.

use vstd::prelude::*;

verus! {

/// Label size of buttons and checkboxes.
pub const CONTROL_LABEL_SIZE: i32 = 11;
/// Height a checkbox is registered at.
pub const CHECKBOX_HEIGHT: i32 = 22;
/// Height a slider is registered at.
pub const SLIDER_HEIGHT: i32 = 22;
/// Height a dropdown is registered at.
pub const DROPDOWN_HEIGHT: i32 = 26;

// ── Dropdown ────────────────────────────────────────────────────────────

/// The texts of a list of strings.
pub open spec fn texts(items: Seq<String>) -> Seq<Seq<char>> {
    items.map_values(|s: String| s@)
}

/// The text of an optional string.
pub open spec fn opt_text(s: Option<&str>) -> Option<Seq<char>> {
    match s {
        Some(t) => Some(t@),
        None => None,
    }
}

/// The entries of a populated dropdown: the default label, then each option.
pub open spec fn entry_texts(default_label: Seq<char>, options: Seq<Seq<char>>) -> Seq<Seq<char>> {
    seq![default_label] + options
}

/// The entry to select: the last option equal to `current`, numbered
/// from 1 since entry 0 is the default; 0 when no option matches.
pub open spec fn selected_entry(options: Seq<Seq<char>>, current: Option<Seq<char>>) -> int
    decreases options.len(),
{
    if options.len() == 0 {
        0
    } else if current == Some(options.last()) {
        options.len() as int
    } else {
        selected_entry(options.drop_last(), current)
    }
}

/// What a dropdown is filled with: its entries in order, and the index
/// of the entry that is selected.
pub struct DropdownContents {
    pub entries: Vec<String>,
    pub selected: i32,
}

/// The contents of a dropdown listing `options`.
///
/// `default_label` is always the first entry (e.g. `"System Default"`,
/// `"None"`, `"Auto"`); each item of `options` follows it. If `current`
/// matches one of the option labels, that option is selected (the last
/// such one, should several match); otherwise the default entry (index 0)
/// is selected. The index is converted to `i32` as the toolkit takes it.
pub fn dropdown_contents(default_label: &str, options: &[String], current: Option<&str>) -> (c:
    DropdownContents)
    ensures
        texts(c.entries@) == entry_texts(default_label@, texts(options@)),
        c.selected == #[verifier::truncate] (selected_entry(texts(options@), opt_text(current)) as i32),
{
    let mut entries: Vec<String> = Vec::new();
    entries.push(default_label.to_owned());
    let cur: Option<String> = match current {
        Some(t) => Some(t.to_owned()),
        None => None,
    };
    let ghost opts = texts(options@);
    let mut selected: i32 = 0;
    let mut i: usize = 0;
    assert(texts(entries@) == entry_texts(default_label@, opts.take(0)));
    while i < options.len()
        invariant
            i <= options.len(),
            opts == texts(options@),
            opt_text(current) == match cur {
                Some(s) => Some(s@),
                None => None::<Seq<char>>,
            },
            texts(entries@) == entry_texts(default_label@, opts.take(i as int)),
            selected == #[verifier::truncate] (selected_entry(opts.take(i as int), opt_text(current)) as i32),
        decreases options.len() - i,
    {
        let item = options[i].clone();
        let matched = match &cur {
            Some(t) => *t == item,
            None => false,
        };
        let ghost before = entries@;
        entries.push(item);
        if matched {
            selected = #[verifier::truncate] ((i + 1) as i32);
        }
        proof {
            let next = opts.take(i + 1);
            assert(next.drop_last() == opts.take(i as int));
            assert(next.last() == options@[i as int]@);
            assert(texts(entries@) =~= texts(before).push(options@[i as int]@));
            assert(entry_texts(default_label@, next) =~= entry_texts(
                default_label@,
                opts.take(i as int),
            ).push(next.last()));
        }
        i = i + 1;
    }
    assert(opts.take(i as int) == opts);
    DropdownContents { entries, selected }
}

// ── Laws ────────────────────────────────────────────────────────────────

/// The default label is always the first entry, and each option follows
/// it in its own order: option `k` is entry `k + 1`.
pub proof fn lemma_dropdown_entries(default_label: Seq<char>, options: Seq<Seq<char>>)
    ensures
        entry_texts(default_label, options).len() == options.len() + 1,
        entry_texts(default_label, options)[0] == default_label,
        forall|k: int|
            0 <= k < options.len() ==> entry_texts(default_label, options)[k + 1]
                == #[trigger] options[k],
{
}

/// If `current` matches one of the options, the selected entry is that
/// option (the last match, should several match); otherwise the default
/// entry, index 0, is selected. The index always names an entry.
pub proof fn lemma_dropdown_selection(
    default_label: Seq<char>,
    options: Seq<Seq<char>>,
    current: Option<Seq<char>>,
)
    ensures
        0 <= selected_entry(options, current) < entry_texts(default_label, options).len(),
        (selected_entry(options, current) == 0) <==> (forall|k: int|
            0 <= k < options.len() ==> current != Some(#[trigger] options[k])),
        selected_entry(options, current) > 0 ==> current == Some(
            entry_texts(default_label, options)[selected_entry(options, current)],
        ),
        forall|k: int|
            selected_entry(options, current) <= k < options.len() ==> current != Some(
                #[trigger] options[k],
            ),
    decreases options.len(),
{
    if options.len() > 0 {
        let rest = options.drop_last();
        let n = options.len() - 1;
        lemma_dropdown_selection(default_label, rest, current);
        assert(entry_texts(default_label, options) == entry_texts(default_label, rest).push(
            options.last(),
        ));
        assert forall|k: int| 0 <= k < rest.len() implies #[trigger] rest[k] == options[k] by {}
        assert(options[n] == options.last());
        if current != Some(options.last()) {
            let sel = selected_entry(rest, current);
            assert forall|k: int| sel <= k < options.len() implies current != Some(
                #[trigger] options[k],
            ) by {
                if k < n {
                    assert(rest[k] == options[k]);
                }
            }
            assert((sel == 0) <==> (forall|k: int|
                0 <= k < options.len() ==> current != Some(#[trigger] options[k]))) by {
                if sel == 0 {
                    assert forall|k: int| 0 <= k < options.len() implies current != Some(
                        #[trigger] options[k],
                    ) by {
                        if k < n {
                            assert(rest[k] == options[k]);
                        }
                    }
                } else {
                    assert(current == Some(rest[sel - 1]));
                    assert(rest[sel - 1] == options[sel - 1]);
                }
            }
        }
    }
}

/// When there are fewer options than `i32::MAX`, converting the selected
/// entry to `i32` keeps its value.
pub proof fn lemma_dropdown_selection_fits(options: Seq<Seq<char>>, current: Option<Seq<char>>)
    requires
        options.len() < i32::MAX,
    ensures
        #[verifier::truncate] (selected_entry(options, current) as i32) as int == selected_entry(
            options,
            current,
        ),
{
    lemma_dropdown_selection(Seq::empty(), options, current);
}

} // verus!
