//! The label of the front application, split into its parts.

use vstd::prelude::*;

use crate::platform::TargetOs;
use crate::text::{self, has_char, trim};

verus! {

/// A front-application label in two parts: the readable name and, on macOS, the bundle id.
#[derive(Debug, Clone, PartialEq, Eq)]
pub struct FrontApp {
    pub name: Option<String>,
    pub bundle_id: Option<String>,
}

/// Name and bundle id, as characters.
pub struct FrontAppParts {
    pub name: Option<Seq<char>>,
    pub bundle_id: Option<Seq<char>>,
}

impl View for FrontApp {
    type V = FrontAppParts;

    open spec fn view(&self) -> FrontAppParts {
        FrontAppParts {
            name: text::optional_text(self.name),
            bundle_id: text::optional_text(self.bundle_id),
        }
    }
}

/// Where the last `" ("` within the first `n` characters of `s` begins.
pub open spec fn last_group(s: Seq<char>, n: int) -> Option<int>
    decreases n,
{
    if n < 2 {
        None
    } else if s[n - 2] == ' ' && s[n - 1] == '(' {
        Some(n - 2)
    } else {
        last_group(s, n - 1)
    }
}

/// A reverse domain name has dots and no spaces.
pub open spec fn is_bundle_id(s: Seq<char>) -> bool {
    s.contains('.') && !s.contains(' ')
}

/// The name before the last group of a macOS label.
pub open spec fn group_name(label: Seq<char>) -> Seq<char> {
    text::trimmed(label.take(last_group(label, label.len() as int)->0))
}

/// What stands between the brackets of the last group of a macOS label.
pub open spec fn group_content(label: Seq<char>) -> Seq<char> {
    text::trimmed(label.subrange(last_group(label, label.len() as int)->0 + 2, label.len() - 1))
}

/// A trimmed label of the form `name (bundle.id)`.
pub open spec fn has_bundle_group(label: Seq<char>) -> bool {
    &&& last_group(label, label.len() as int) is Some
    &&& label.last() == ')'
    &&& group_name(label).len() > 0
    &&& is_bundle_id(group_content(label))
}

/// The parts of a label. Only a macOS label is ever split; any other label, and a macOS label
/// that does not end in a bundle id, is all name.
pub open spec fn front_app_parts(label: Seq<char>, is_macos: bool) -> FrontAppParts {
    let whole = text::trimmed(label);
    if whole.len() == 0 {
        FrontAppParts { name: None, bundle_id: None }
    } else if is_macos && has_bundle_group(whole) {
        FrontAppParts { name: Some(group_name(whole)), bundle_id: Some(group_content(whole)) }
    } else {
        FrontAppParts { name: Some(whole), bundle_id: None }
    }
}

proof fn lemma_last_group(s: Seq<char>, n: int)
    requires
        0 <= n <= s.len(),
    ensures
        last_group(s, n) matches Some(i) ==> 0 <= i && i + 2 <= n && s[i] == ' ' && s[i + 1] == '(',
    decreases n,
{
    if n >= 2 && !(s[n - 2] == ' ' && s[n - 1] == '(') {
        lemma_last_group(s, n - 1);
    }
}

fn find_last_group(s: &str) -> (r: Option<usize>)
    ensures
        match r {
            Some(i) => last_group(s@, s@.len() as int) == Some(i as int),
            None => last_group(s@, s@.len() as int) is None,
        },
{
    let mut n: usize = s.unicode_len();
    while n >= 2
        invariant
            n <= s@.len(),
            last_group(s@, s@.len() as int) == last_group(s@, n as int),
        decreases n,
    {
        if s.get_char(n - 2) == ' ' && s.get_char(n - 1) == '(' {
            return Some(n - 2);
        }
        n -= 1;
    }
    None
}

/// Splits the label of the front application into its name and its bundle id.
///
/// On macOS the label reads `name (bundle.id)`. Elsewhere it is a window title, whose brackets
/// belong to the title, so it is kept whole.
pub fn split_front_app_label(label: &str, is_macos: bool) -> (r: FrontApp)
    ensures
        r@ == front_app_parts(label@, is_macos),
{
    let whole: &str = trim(label);
    if whole.is_empty() {
        return FrontApp { name: None, bundle_id: None };
    }
    if is_macos {
        let n: usize = whole.unicode_len();
        if let Some(open) = find_last_group(whole) {
            proof {
                lemma_last_group(whole@, whole@.len() as int);
            }
            if whole.get_char(n - 1) == ')' {
                let name: &str = trim(whole.substring_char(0, open));
                let bundle: &str = trim(whole.substring_char(open + 2, n - 1));
                assert(whole@.subrange(0, open as int) =~= whole@.take(open as int));
                if !name.is_empty() && has_char(bundle, '.') && !has_char(bundle, ' ') {
                    return FrontApp {
                        name: Some(name.to_owned()),
                        bundle_id: Some(bundle.to_owned()),
                    };
                }
            }
        }
    }
    FrontApp { name: Some(whole.to_owned()), bundle_id: None }
}

/// `split_front_app_label` for a label that may be missing, with the system deciding the format.
pub fn split_front_app_opt(label: Option<&str>, target: TargetOs) -> (r: FrontApp)
    ensures
        r@ == (match label {
            Some(l) => front_app_parts(l@, target is Macos),
            None => FrontAppParts { name: None, bundle_id: None },
        }),
{
    match label {
        Some(l) => split_front_app_label(l, target == TargetOs::Macos),
        None => FrontApp { name: None, bundle_id: None },
    }
}

/// The label of the front application: its name, on macOS followed by the bundle id in brackets.
pub open spec fn front_app_label(name: Option<Seq<char>>, bundle_id: Option<Seq<char>>) -> Option<
    Seq<char>,
> {
    match (name, bundle_id) {
        (Some(n), Some(b)) => Some(n + " ("@ + b + ")"@),
        (Some(n), None) => Some(n),
        (None, Some(b)) => Some(b),
        (None, None) => None,
    }
}

/// The label of the front application, from the parts that the system gives.
pub fn current_front_app(name: Option<String>, bundle_id: Option<String>) -> (r: Option<String>)
    ensures
        text::optional_text(r) == front_app_label(
            text::optional_text(name),
            text::optional_text(bundle_id),
        ),
{
    match (name, bundle_id) {
        (Some(n), Some(b)) => {
            let mut label: String = n;
            label.append(" (");
            label.append(b.as_str());
            label.append(")");
            Some(label)
        },
        (Some(n), None) => Some(n),
        (None, Some(b)) => Some(b),
        (None, None) => None,
    }
}

proof fn lemma_group_found(label: Seq<char>, open: int, n: int)
    requires
        0 <= open,
        open + 2 <= n <= label.len(),
        label[open] == ' ',
        label[open + 1] == '(',
        forall|i: int|
            open < i < label.len() - 1 ==> !(#[trigger] label[i] == ' ' && label[i + 1] == '('),
    ensures
        last_group(label, n) == Some(open),
    decreases n,
{
    if n > open + 2 {
        lemma_group_found(label, open, n - 1);
    }
}

/// A label that ends in a group whose content is a bundle id, and in which no later group begins,
/// splits there.
proof fn lemma_splits_at_group(before: Seq<char>, content: Seq<char>)
    requires
        before.len() > 0,
        !text::is_white_space(before[0]),
        text::trimmed(content).contains('.'),
        !text::trimmed(content).contains(' '),
        forall|i: int|
            0 <= i < content.len() - 1 ==> !(#[trigger] content[i] == ' ' && content[i + 1] == '('),
    ensures
        front_app_parts(before + " ("@ + content + ")"@, true) == (FrontAppParts {
            name: Some(text::trimmed(before)),
            bundle_id: Some(text::trimmed(content)),
        }),
{
    reveal_strlit(" (");
    reveal_strlit(")");
    let label = before + " ("@ + content + ")"@;
    let open = before.len() as int;
    let n = label.len() as int;
    assert(n == open + 2 + content.len() + 1);
    assert(label[0] == before[0]);
    assert(label.last() == ')');
    text::lemma_nothing_to_trim(label);
    assert(label[open] == ' ');
    assert(label[open + 1] == '(');
    assert forall|i: int| open < i < n - 1 implies !(#[trigger] label[i] == ' ' && label[i + 1]
        == '(') by {
        if open + 2 <= i < n - 2 {
            assert(label[i] == content[i - open - 2]);
            assert(label[i + 1] == content[i - open - 2 + 1]);
        }
    }
    lemma_group_found(label, open, n);
    assert(label.take(open) =~= before);
    assert(label.subrange(open + 2, n - 1) =~= content);
    text::trimming_takes_all_white_space_at_the_ends(before);
    assert(text::trimmed(before).len() > 0) by {
        if text::trimmed(before).len() == 0 {
            assert(text::is_white_space(before[0]));
        }
    }
}

/// A macOS label splits back into the name and the bundle id that it was made of, for any name
/// without white space around it and any bundle id that has a dot, no space, and no other white
/// space around it.
pub proof fn labels_split_back(name: Seq<char>, bundle_id: Seq<char>)
    requires
        name.len() > 0,
        text::trimmed(name) == name,
        bundle_id.contains('.') && !bundle_id.contains(' '),
        text::trimmed(bundle_id) == bundle_id,
    ensures
        front_app_label(Some(name), Some(bundle_id)) matches Some(label) && front_app_parts(label, true)
            == (FrontAppParts { name: Some(name), bundle_id: Some(bundle_id) }),
{
    text::lemma_untrimmed(name);
    assert forall|i: int| 0 <= i < bundle_id.len() - 1 implies !(#[trigger] bundle_id[i] == ' '
        && bundle_id[i + 1] == '(') by {
        assert(bundle_id.contains(bundle_id[i]));
    }
    lemma_splits_at_group(name, bundle_id);
}

/// The label that is made of a name and a bundle id gives both back when it is split.
pub proof fn made_labels_split_back(
    name: String,
    bundle_id: String,
    made: Option<String>,
    label: &str,
    split: FrontApp,
)
    requires
        name@.len() > 0,
        text::trimmed(name@) == name@,
        bundle_id@.contains('.') && !bundle_id@.contains(' '),
        text::trimmed(bundle_id@) == bundle_id@,
        call_ensures(current_front_app, (Some(name), Some(bundle_id)), made),
        made matches Some(m) ==> m@ == label@,
        call_ensures(split_front_app_label, (label, true), split),
    ensures
        made is Some,
        split.name is Some && split.name->0@ == name@,
        split.bundle_id is Some && split.bundle_id->0@ == bundle_id@,
{
    labels_split_back(name@, bundle_id@);
}

/// On macOS a label of the form `name (content)` splits wherever the content, without the white
/// space around it, has a dot and no space, and no later group begins in it.
pub proof fn labels_split_at_their_last_group(
    label: &str,
    before: Seq<char>,
    content: Seq<char>,
    split: FrontApp,
)
    requires
        label@ == before + " ("@ + content + ")"@,
        before.len() > 0,
        !text::is_white_space(before[0]),
        text::trimmed(content).contains('.'),
        !text::trimmed(content).contains(' '),
        forall|i: int|
            0 <= i < content.len() - 1 ==> !(#[trigger] content[i] == ' ' && content[i + 1] == '('),
        call_ensures(split_front_app_label, (label, true), split),
    ensures
        split.name is Some && split.name->0@ == text::trimmed(before),
        split.bundle_id is Some && split.bundle_id->0@ == text::trimmed(content),
{
    lemma_splits_at_group(before, content);
}

/// What a label splits into stands in it: a bundle id is the content of the group at the end of a
/// macOS label, has a dot and no space, and the name stands before it. Without a bundle id the name
/// is the whole label, and there is no name where the label is blank.
pub proof fn parts_of_a_label_stand_in_it(label: &str, is_macos: bool, split: FrontApp)
    requires
        call_ensures(split_front_app_label, (label, is_macos), split),
    ensures
        split.bundle_id matches Some(b) ==> {
            &&& is_macos
            &&& b@.contains('.') && !b@.contains(' ')
            &&& exists|before: Seq<char>, content: Seq<char>|
                {
                    &&& text::trimmed(label@) == #[trigger] (before + " ("@ + content + ")"@)
                    &&& split.name is Some && split.name->0@ == text::trimmed(before)
                    &&& split.name->0@.len() > 0
                    &&& b@ == text::trimmed(content)
                }
        },
        split.bundle_id is None && text::trimmed(label@).len() > 0 ==> split.name is Some
            && split.name->0@ == text::trimmed(label@),
        text::trimmed(label@).len() == 0 <==> split.name is None,
{
    let whole = text::trimmed(label@);
    if split.bundle_id is Some {
        reveal_strlit(" (");
        reveal_strlit(")");
        let n = whole.len() as int;
        lemma_last_group(whole, n);
        let open = last_group(whole, n)->0;
        let before = whole.take(open);
        let content = whole.subrange(open + 2, n - 1);
        assert(whole =~= before + " ("@ + content + ")"@);
    }
}

/// A label with the system's say on its format: macOS labels are split, all others are kept whole,
/// and no label has no parts.
pub proof fn only_macos_labels_are_split(
    label: Option<&str>,
    target: TargetOs,
    r: FrontApp,
    is_macos: bool,
    split: FrontApp,
)
    requires
        call_ensures(split_front_app_opt, (label, target), r),
        label is Some ==> call_ensures(split_front_app_label, (label->0, is_macos), split),
        is_macos <==> target == TargetOs::Macos,
    ensures
        label is None ==> r.name is None && r.bundle_id is None,
        label is Some ==> text::optional_text(r.name) == text::optional_text(split.name)
            && text::optional_text(r.bundle_id) == text::optional_text(split.bundle_id),
        target != TargetOs::Macos ==> r.bundle_id is None,
{
}

/// The label of the front application is made of the parts that are there: both, with the bundle id
/// in brackets, or the one that there is.
pub proof fn labels_are_made_of_their_parts(
    name: Option<String>,
    bundle_id: Option<String>,
    r: Option<String>,
)
    requires
        call_ensures(current_front_app, (name, bundle_id), r),
    ensures
        r is None <==> name is None && bundle_id is None,
        name is Some && bundle_id is Some ==> r->0@ == name->0@ + " ("@ + bundle_id->0@ + ")"@,
        name is Some && bundle_id is None ==> r->0@ == name->0@,
        name is None && bundle_id is Some ==> r->0@ == bundle_id->0@,
{
}

/// Outside macOS no label is ever split, whatever stands in its brackets.
pub proof fn labels_are_never_split_outside_macos(label: Seq<char>)
    ensures
        front_app_parts(label, false).bundle_id is None,
        text::trimmed(label).len() > 0 ==> front_app_parts(label, false).name == Some(text::trimmed(label)),
{
}

/// White space around a label makes no difference to its parts.
pub proof fn labels_split_alike_whatever_stands_around_them(
    label: &str,
    core: &str,
    is_macos: bool,
    split: FrontApp,
    split_core: FrontApp,
)
    requires
        call_ensures(trim, (label,), core),
        call_ensures(split_front_app_label, (label, is_macos), split),
        call_ensures(split_front_app_label, (core, is_macos), split_core),
    ensures
        split.name is Some <==> split_core.name is Some,
        split.name is Some ==> split.name->0@ == split_core.name->0@,
        split.bundle_id is Some <==> split_core.bundle_id is Some,
        split.bundle_id is Some ==> split.bundle_id->0@ == split_core.bundle_id->0@,
{
    text::trimming_takes_all_white_space_at_the_ends(label@);
    assert(split@ == split_core@);
}

} // verus!
