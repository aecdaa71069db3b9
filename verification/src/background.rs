//! Launcher backgrounds: the choices, their file names, and the deterministic
//! two-tone pattern.

use crate::framebuffer::Rgb8Pixel;
use crate::sorting::sort_texts;
use crate::text::{
    from_chars, push_string, str_eq, strip_prefix, strip_suffix, test_ends, to_chars, upper_char,
    CharSet,
};
use vstd::prelude::*;

verus! {

/// The largest pattern.
pub const MAX_PIXELS: usize = 4_194_304;

/// The largest number of entries that are looked at in the background
/// directory.
pub const MAX_BACKGROUND_DIRECTORY_ENTRIES: usize = 64;

/// The largest number of background files to choose from.
pub const MAX_BACKGROUND_FILE_CHOICES: usize = 15;

// ---------------------------------------------------------------------------
// Choices
// ---------------------------------------------------------------------------
/// Whether a name is a bounded ASCII `.png` basename.
pub open spec fn is_background_name(name: Seq<char>) -> bool {
    &&& 5 <= name.len() <= 64
    &&& crate::text::is_alphanumeric(name[0])
    &&& CharSet::FileName.covers(name)
    &&& crate::text::ends(name, ".png"@)
}

/// A validated basename within the one background directory.
#[derive(Debug, PartialEq, Eq, PartialOrd, Ord)]
pub struct LauncherBackgroundFileName(String);

impl View for LauncherBackgroundFileName {
    type V = Seq<char>;

    closed spec fn view(&self) -> Seq<char> {
        self.0@
    }
}

impl Clone for LauncherBackgroundFileName {
    fn clone(&self) -> (copy: Self)
        ensures
            copy@ == self@,
    {
        proof {
            use_type_invariant(self);
        }
        LauncherBackgroundFileName(self.0.clone())
    }
}

impl LauncherBackgroundFileName {
    #[verifier::type_invariant]
    spec fn inv(&self) -> bool {
        is_background_name(self.0@)
    }

    /// Validates one bounded ASCII `.png` basename.
    pub fn parse(value: &str) -> (name: Option<Self>)
        ensures
            match name {
                Some(name) => is_background_name(value@) && name@ == value@,
                None => !is_background_name(value@),
            },
    {
        let chars: Vec<char> = to_chars(value);
        if chars.len() < 5 || chars.len() > 64 || !CharSet::Alphanumeric.test(chars[0])
            || !CharSet::FileName.test_all(chars.as_slice()) || !test_ends(
            chars.as_slice(),
            ".png",
        ) {
            return None;
        }
        Some(LauncherBackgroundFileName(value.to_owned()))
    }

    /// Returns the validated basename.
    pub fn as_str(&self) -> (name: &str)
        ensures
            name@ == self@,
            is_background_name(name@),
    {
        proof {
            use_type_invariant(self);
        }
        self.0.as_str()
    }

    /// Returns the title of the image.
    pub fn label(&self) -> (label: String)
        ensures
            label@ == file_label(self@),
    {
        if str_eq(self.0.as_str(), "waves.png") {
            return "Waves".to_owned();
        }
        if str_eq(self.0.as_str(), "topography.png") {
            return "Topography".to_owned();
        }
        let chars: Vec<char> = to_chars(self.0.as_str());
        let stem: &[char] = match strip_suffix(chars.as_slice(), ".png") {
            Some(stem) => stem,
            None => chars.as_slice(),
        };
        let mut title: Vec<char> = Vec::new();
        for i in 0..stem.len()
            invariant
                title@ == titled(stem@).take(i as int),
        {
            let c: char = if stem[i] == '-' || stem[i] == '_' {
                ' '
            } else if i == 0 {
                upper_char(stem[i])
            } else {
                stem[i]
            };
            title.push(c);
            assert(titled(stem@).take(i + 1) =~= titled(stem@).take(i as int).push(c));
        }
        assert(titled(stem@).take(stem@.len() as int) =~= titled(stem@));
        from_chars(title.as_slice())
    }
}

/// A file stem as a title: hyphens and underscores become spaces, and the first
/// letter becomes upper case.
pub open spec fn titled(stem: Seq<char>) -> Seq<char> {
    Seq::new(
        stem.len(),
        |i: int|
            if stem[i] == '-' || stem[i] == '_' {
                ' '
            } else if i == 0 {
                crate::text::upper(stem[i])
            } else {
                stem[i]
            },
    )
}

/// The title of a background file.
pub open spec fn file_label(name: Seq<char>) -> Seq<char> {
    if name == "waves.png"@ {
        "Waves"@
    } else if name == "topography.png"@ {
        "Topography"@
    } else {
        match crate::text::before_suffix(name, ".png"@) {
            Some(stem) => titled(stem),
            None => titled(name),
        }
    }
}

/// A choice of background.
pub enum Choice {
    /// The built-in pattern.
    Pattern,
    /// A file.
    File { name: Seq<char> },
}

impl Choice {
    /// Short settings label.
    pub open spec fn label(self) -> Seq<char> {
        match self {
            Choice::Pattern => "Pattern"@,
            Choice::File { name } => file_label(name),
        }
    }

    /// Secondary label describing the source.
    pub open spec fn detail(self) -> Seq<char> {
        match self {
            Choice::Pattern => "Generated on device"@,
            Choice::File { .. } => "Image from ferrink/backgrounds"@,
        }
    }

    /// Stable value used by the preference file.
    pub open spec fn setting(self) -> Seq<char> {
        match self {
            Choice::Pattern => "pattern"@,
            Choice::File { name } => "file:"@ + name,
        }
    }

    /// The choice that a preference value stands for. The values `waves` and
    /// `topography` stand for the files of these names.
    pub open spec fn of_setting(value: Seq<char>) -> Option<Choice> {
        if value == "pattern"@ {
            Some(Choice::Pattern)
        } else if value == "waves"@ {
            Some(Choice::File { name: "waves.png"@ })
        } else if value == "topography"@ {
            Some(Choice::File { name: "topography.png"@ })
        } else {
            match crate::text::after_prefix(value, "file:"@) {
                Some(name) => if is_background_name(name) {
                    Some(Choice::File { name })
                } else {
                    None
                },
                None => None,
            }
        }
    }
}

/// User-selectable launcher background source.
#[derive(Debug, PartialEq, Eq)]
pub enum LauncherBackgroundChoice {
    /// Deterministic built-in two-tone pattern.
    Pattern,
    /// Validated exact-size PNG from the single background directory.
    File(LauncherBackgroundFileName),
}

impl View for LauncherBackgroundChoice {
    type V = Choice;

    open spec fn view(&self) -> Choice {
        match self {
            LauncherBackgroundChoice::Pattern => Choice::Pattern,
            LauncherBackgroundChoice::File(name) => Choice::File { name: name@ },
        }
    }
}

impl Clone for LauncherBackgroundChoice {
    fn clone(&self) -> (copy: Self)
        ensures
            copy@ == self@,
    {
        match self {
            LauncherBackgroundChoice::Pattern => LauncherBackgroundChoice::Pattern,
            LauncherBackgroundChoice::File(name) => LauncherBackgroundChoice::File(name.clone()),
        }
    }
}

impl LauncherBackgroundChoice {
    /// Returns the short settings label.
    pub fn label(&self) -> (label: String)
        ensures
            label@ == self@.label(),
    {
        match self {
            LauncherBackgroundChoice::Pattern => "Pattern".to_owned(),
            LauncherBackgroundChoice::File(name) => name.label(),
        }
    }

    /// Returns the secondary picker label describing the source.
    pub fn detail(&self) -> (detail: &'static str)
        ensures
            detail@ == self@.detail(),
    {
        match self {
            LauncherBackgroundChoice::Pattern => "Generated on device",
            LauncherBackgroundChoice::File(_) => "Image from ferrink/backgrounds",
        }
    }

    /// Returns the stable value used by the versioned preference file.
    pub fn setting_value(&self) -> (value: String)
        ensures
            value@ == self@.setting(),
    {
        match self {
            LauncherBackgroundChoice::Pattern => "pattern".to_owned(),
            LauncherBackgroundChoice::File(name) => {
                let mut value: String = "file:".to_owned();
                value.append(name.as_str());
                value
            },
        }
    }

    /// Returns the validated image filename, if this is not the generated
    /// choice.
    pub fn filename(&self) -> (name: Option<&LauncherBackgroundFileName>)
        ensures
            match name {
                Some(name) => self@ == (Choice::File { name: name@ }),
                None => self@ is Pattern,
            },
    {
        match self {
            LauncherBackgroundChoice::Pattern => None,
            LauncherBackgroundChoice::File(name) => Some(name),
        }
    }

    /// Parses one exact persisted value.
    pub fn from_setting_value(value: &str) -> (choice: Option<Self>)
        ensures
            match choice {
                Some(choice) => Choice::of_setting(value@) == Some(choice@),
                None => Choice::of_setting(value@) is None,
            },
    {
        proof {
            reveal_strlit("waves.png");
            reveal_strlit("topography.png");
            reveal_strlit(".png");
            assert("waves.png"@.subrange(5, 9) =~= ".png"@);
            assert("topography.png"@.subrange(10, 14) =~= ".png"@);
        }
        if str_eq(value, "pattern") {
            return Some(LauncherBackgroundChoice::Pattern);
        }
        let chars: Vec<char> = to_chars(value);
        let name: Option<LauncherBackgroundFileName> = if str_eq(value, "waves") {
            LauncherBackgroundFileName::parse("waves.png")
        } else if str_eq(value, "topography") {
            LauncherBackgroundFileName::parse("topography.png")
        } else {
            match strip_prefix(chars.as_slice(), "file:") {
                Some(name) => LauncherBackgroundFileName::parse(from_chars(name).as_str()),
                None => None,
            }
        };
        match name {
            Some(name) => Some(LauncherBackgroundChoice::File(name)),
            None => None,
        }
    }

    /// Tests whether two choices are the same.
    pub fn same(&self, other: &Self) -> (same: bool)
        ensures
            same == (self@ == other@),
    {
        match (self, other) {
            (LauncherBackgroundChoice::Pattern, LauncherBackgroundChoice::Pattern) => true,
            (LauncherBackgroundChoice::File(a), LauncherBackgroundChoice::File(b)) => str_eq(
                a.as_str(),
                b.as_str(),
            ),
            _ => false,
        }
    }
}

/// A persisted choice reads back as itself.
pub proof fn law_settings_read_back(choice: Choice)
    requires
        choice matches Choice::File { name } ==> is_background_name(name),
    ensures
        Choice::of_setting(choice.setting()) == Some(choice),
{
    if let Choice::File { name } = choice {
        let value = choice.setting();
        reveal_strlit("file:");
        reveal_strlit("pattern");
        reveal_strlit("waves");
        reveal_strlit("topography");
        assert(value[0] == 'f');
        assert(value.subrange(0, 5) =~= "file:"@);
        assert(value.skip(5) =~= name);
    }
}

/// What each choice is.
pub open spec fn choices(list: Seq<LauncherBackgroundChoice>) -> Seq<Choice> {
    list.map_values(|choice: LauncherBackgroundChoice| choice@)
}

/// A directory entry whose image was inspected.
#[derive(Debug, Clone, PartialEq, Eq)]
pub struct BackgroundEntry {
    /// File name.
    pub name: String,
    /// Whether the image is an acceptable background.
    pub valid: bool,
}

/// The names of the acceptable background files, in the order of the directory.
pub open spec fn usable_names(entries: Seq<BackgroundEntry>) -> Seq<Seq<char>> {
    entries.filter_map(
        |entry: BackgroundEntry|
            if entry.valid && is_background_name(entry.name@) {
                Some(entry.name@)
            } else {
                None
            },
    )
}

/// Whether names come in ascending order, each of them once.
pub open spec fn is_ascending(names: Seq<Seq<char>>) -> bool {
    forall|i: int, j: int|
        0 <= i < j < names.len() ==> crate::string_map::precedes(
            #[trigger] names[i],
            #[trigger] names[j],
        )
}

/// The names of the file choices.
pub open spec fn file_names(list: Seq<Choice>) -> Seq<Seq<char>> {
    list.map_values(
        |choice: Choice|
            match choice {
                Choice::File { name } => name,
                Choice::Pattern => Seq::empty(),
            },
    )
}

/// Whether a list offers the built-in pattern and then the first of the usable
/// files in ascending order, up to the bound.
pub open spec fn offers(list: Seq<Choice>, usable: Seq<Seq<char>>) -> bool {
    let names = file_names(list.skip(1));
    &&& 1 <= list.len() <= MAX_BACKGROUND_FILE_CHOICES + 1
    &&& list[0] == Choice::Pattern
    &&& forall|i: int| 1 <= i < list.len() ==> (#[trigger] list[i]) is File
    &&& is_ascending(names)
    &&& forall|i: int| 0 <= i < names.len() ==> usable.contains(#[trigger] names[i])
    &&& forall|name: Seq<char>| #[trigger]
        usable.contains(name) ==> names.contains(name) || {
            &&& names.len() == MAX_BACKGROUND_FILE_CHOICES
            &&& forall|i: int|
                0 <= i < names.len() ==> crate::string_map::precedes(#[trigger] names[i], name)
        }
}

fn collect_usable(entries: &Vec<BackgroundEntry>) -> (names: Vec<String>)
    ensures
        crate::text::texts(names@) == usable_names(entries@),
{
    let ghost usable = |entry: BackgroundEntry|
        if entry.valid && is_background_name(entry.name@) {
            Some(entry.name@)
        } else {
            None
        };
    let mut names: Vec<String> = Vec::new();
    assert(crate::text::texts(names@) =~= entries@.take(0).filter_map(usable));
    for i in 0..entries.len()
        invariant
            usable == (|entry: BackgroundEntry|
                if entry.valid && is_background_name(entry.name@) {
                    Some(entry.name@)
                } else {
                    None
                }),
            crate::text::texts(names@) == entries@.take(i as int).filter_map(usable),
    {
        let ghost before = crate::text::texts(names@);
        assert(entries@.take(i + 1).drop_last() =~= entries@.take(i as int));
        if entries[i].valid && LauncherBackgroundFileName::parse(
            entries[i].name.as_str(),
        ).is_some() {
            push_string(&mut names, entries[i].name.clone());
            assert(before.push(entries@[i as int].name@) =~= before
                + seq![entries@[i as int].name@]);
        }
    }
    assert(entries@.take(entries@.len() as int) =~= entries@);
    names
}

/// Lists the choices that a directory offers: the built-in pattern, and then
/// the acceptable files in ascending order, each once and at most fifteen.
pub fn discover_background_choices(entries: &Vec<BackgroundEntry>) -> (list: Vec<
    LauncherBackgroundChoice,
>)
    ensures
        offers(choices(list@), usable_names(entries@)),
{
    let usable: Vec<String> = collect_usable(entries);
    let sorted: Vec<String> = sort_texts(&usable);
    let ghost wanted = crate::text::texts(usable@);
    let ghost all = crate::text::texts(sorted@);
    proof {
        wanted.to_multiset_ensures();
        all.to_multiset_ensures();
        assert forall|name: Seq<char>| all.contains(name) <==> wanted.contains(name) by {
            assert(all.to_multiset().count(name) == wanted.to_multiset().count(name));
        }
        usable_names_are_names(entries@);
        assert forall|j: int| 0 <= j < all.len() implies is_background_name(#[trigger] all[j]) by {
            assert(all.contains(all[j]));
            assert(wanted.contains(all[j]));
        }
    }
    let mut list: Vec<LauncherBackgroundChoice> = Vec::new();
    list.push(LauncherBackgroundChoice::Pattern);
    let ghost mut names: Seq<Seq<char>> = seq![];
    assert(file_names(choices(list@).skip(1)) =~= names);
    let mut i: usize = 0;
    while i < sorted.len() && list.len() <= MAX_BACKGROUND_FILE_CHOICES
        invariant
            i <= sorted@.len(),
            1 <= list@.len() <= MAX_BACKGROUND_FILE_CHOICES + 1,
            all == crate::text::texts(sorted@),
            crate::sorting::is_sorted(all),
            forall|j: int| 0 <= j < all.len() ==> is_background_name(#[trigger] all[j]),
            names.len() == list@.len() - 1,
            choices(list@)[0] == Choice::Pattern,
            forall|j: int|
                1 <= j < list@.len() ==> (#[trigger] choices(list@)[j]) == (Choice::File {
                    name: names[j - 1],
                }),
            is_ascending(names),
            forall|j: int|
                0 <= j < names.len() ==> all.take(i as int).contains(#[trigger] names[j]),
            forall|j: int| 0 <= j < i ==> names.contains(#[trigger] all[j]),
        decreases sorted@.len() - i,
    {
        let ghost before = names;
        let ghost old_list = choices(list@);
        let ghost text = all[i as int];
        assert(text == sorted@[i as int]@);
        let repeated: bool = i > 0 && str_eq(sorted[i].as_str(), sorted[i - 1].as_str());
        assert(i > 0 ==> all[i - 1] == sorted@[i - 1]@);
        if !repeated {
            if let Some(name) = LauncherBackgroundFileName::parse(sorted[i].as_str()) {
                list.push(LauncherBackgroundChoice::File(name));
                proof {
                    names = names.push(text);
                    assert(choices(list@) =~= old_list.push(Choice::File { name: text }));
                    assert forall|j: int| 0 <= j < before.len() implies
                        crate::string_map::precedes(#[trigger] before[j], text) by {
                        let k = choose|k: int|
                            0 <= k < i && all.take(i as int)[k] == before[j];
                        assert(all[k] == before[j]);
                        earlier_names_precede(all, k, i as int);
                    }
                    assert forall|a: int, b: int| 0 <= a < b < names.len() implies
                        crate::string_map::precedes(#[trigger] names[a], #[trigger] names[b]) by {
                        if b == before.len() {
                            assert(names[a] == before[a]);
                        } else {
                            assert(names[a] == before[a] && names[b] == before[b]);
                        }
                    }
                    assert(names[before.len() as int] == text);
                    assert(names.contains(text));
                }
            }
        } else {
            assert(names.contains(all[i - 1]));
        }
        proof {
            assert forall|j: int| 0 <= j < names.len() implies all.take(i + 1).contains(
                #[trigger] names[j],
            ) by {
                if j < before.len() {
                    assert(names[j] == before[j]);
                    let k = choose|k: int| 0 <= k < i && all.take(i as int)[k] == before[j];
                    assert(all.take(i + 1)[k] == names[j]);
                } else {
                    assert(all.take(i + 1)[i as int] == names[j]);
                }
            }
            assert forall|j: int| 0 <= j < i + 1 implies names.contains(#[trigger] all[j]) by {
                if j < i {
                    let k = choose|k: int| 0 <= k < before.len() && before[k] == all[j];
                    assert(names[k] == all[j]);
                }
            }
        }
        i = i + 1;
    }
    proof {
        let listed = choices(list@);
        assert(file_names(listed.skip(1)) =~= names) by {
            assert forall|j: int| 0 <= j < names.len() implies file_names(listed.skip(1))[j]
                == names[j] by {
                assert(listed.skip(1)[j] == listed[j + 1]);
            }
        }
        assert forall|j: int| 0 <= j < names.len() implies wanted.contains(
            #[trigger] names[j],
        ) by {
            let k = choose|k: int| 0 <= k < i && all.take(i as int)[k] == names[j];
            assert(all[k] == names[j]);
        }
        assert forall|name: Seq<char>| #[trigger] wanted.contains(name) implies names.contains(
            name,
        ) || {
            &&& names.len() == MAX_BACKGROUND_FILE_CHOICES
            &&& forall|j: int|
                0 <= j < names.len() ==> crate::string_map::precedes(#[trigger] names[j], name)
        } by {
            assert(all.contains(name));
            let at = choose|at: int| 0 <= at < all.len() && all[at] == name;
            if at >= i {
                if !names.contains(name) {
                    assert forall|j: int| 0 <= j < names.len() implies
                        crate::string_map::precedes(#[trigger] names[j], name) by {
                        let k = choose|k: int|
                            0 <= k < i && all.take(i as int)[k] == names[j];
                        assert(all[k] == names[j]);
                        not_later(all, k, at);
                    }
                }
            }
        }
    }
    list
}

/// In a sorted list without repetition at `i`, earlier names precede.
proof fn earlier_names_precede(all: Seq<Seq<char>>, k: int, i: int)
    requires
        crate::sorting::is_sorted(all),
        0 <= k < i < all.len(),
        all[i - 1] != all[i],
    ensures
        crate::string_map::precedes(all[k], all[i]),
{
    crate::string_map::precedes_is_total(all[k], all[i]);
    if all[k] == all[i] {
        if k < i - 1 {
            crate::string_map::precedes_is_total(all[i - 1], all[i]);
            assert(!crate::string_map::precedes(all[i], all[i - 1]));
            assert(!crate::string_map::precedes(all[i - 1], all[k]));
        }
    }
}

/// In a sorted list, a name that differs from an earlier one comes after it.
proof fn not_later(all: Seq<Seq<char>>, k: int, at: int)
    requires
        crate::sorting::is_sorted(all),
        0 <= k < at < all.len(),
        all[k] != all[at],
    ensures
        crate::string_map::precedes(all[k], all[at]),
{
    crate::string_map::precedes_is_total(all[k], all[at]);
}

proof fn usable_names_are_names(entries: Seq<BackgroundEntry>)
    ensures
        forall|j: int|
            0 <= j < usable_names(entries).len() ==> is_background_name(
                #[trigger] usable_names(entries)[j],
            ),
        forall|name: Seq<char>| #[trigger]
            usable_names(entries).contains(name) ==> is_background_name(name),
    decreases entries.len(),
{
    if entries.len() > 0 {
        let entry = entries.last();
        let before = usable_names(entries.drop_last());
        usable_names_are_names(entries.drop_last());
        let now = usable_names(entries);
        assert(now == before || now == before + seq![entry.name@] && is_background_name(
            entry.name@,
        ));
        assert forall|j: int| 0 <= j < now.len() implies is_background_name(
            #[trigger] now[j],
        ) by {
            if j < before.len() {
                assert(now[j] == before[j]);
            }
        }
    }
}

// ---------------------------------------------------------------------------
// Pattern
// ---------------------------------------------------------------------------
/// Reviewed parameter sets of the pattern.
#[derive(Debug, Clone, Copy, PartialEq, Eq, Structural)]
pub enum JacquardPreset {
    /// Original 150-pixel motif and stronger interlock.
    Original,
    /// Calmer 220-pixel motif and gentler bend.
    Calm,
    /// Tighter, lower-contrast upholstery treatment.
    Upholstery,
    /// Calm geometry with two tones separated for a 16-level E-Ink panel.
    EinkCalm,
}

impl JacquardPreset {
    /// Every preset in stable comparison order.
    pub const ALL: [JacquardPreset; 4] = [
        JacquardPreset::Original,
        JacquardPreset::Calm,
        JacquardPreset::Upholstery,
        JacquardPreset::EinkCalm,
    ];

    /// Returns the stable filename label of the preset.
    pub fn slug(self) -> (slug: &'static str)
        ensures
            slug@ == (match self {
                JacquardPreset::Original => "original"@,
                JacquardPreset::Calm => "calm"@,
                JacquardPreset::Upholstery => "upholstery"@,
                JacquardPreset::EinkCalm => "eink-calm"@,
            }),
    {
        match self {
            JacquardPreset::Original => "original",
            JacquardPreset::Calm => "calm",
            JacquardPreset::Upholstery => "upholstery",
            JacquardPreset::EinkCalm => "eink-calm",
        }
    }

    /// The darker tone.
    pub open spec fn spec_dark(self) -> Rgb8Pixel {
        match self {
            JacquardPreset::Original => Rgb8Pixel { red: 31, green: 33, blue: 37 },
            JacquardPreset::Calm => Rgb8Pixel { red: 31, green: 33, blue: 37 },
            JacquardPreset::Upholstery => Rgb8Pixel { red: 32, green: 34, blue: 37 },
            JacquardPreset::EinkCalm => Rgb8Pixel { red: 32, green: 34, blue: 37 },
        }
    }

    /// The lighter tone.
    pub open spec fn spec_light(self) -> Rgb8Pixel {
        match self {
            JacquardPreset::Original => Rgb8Pixel { red: 43, green: 46, blue: 51 },
            JacquardPreset::Calm => Rgb8Pixel { red: 43, green: 46, blue: 51 },
            JacquardPreset::Upholstery => Rgb8Pixel { red: 39, green: 42, blue: 46 },
            JacquardPreset::EinkCalm => Rgb8Pixel { red: 62, green: 66, blue: 72 },
        }
    }

    /// Returns the darker tone.
    #[verifier::when_used_as_spec(spec_dark)]
    pub fn dark(self) -> (tone: Rgb8Pixel)
        ensures
            tone == self.spec_dark(),
    {
        match self {
            JacquardPreset::Original => Rgb8Pixel { red: 31, green: 33, blue: 37 },
            JacquardPreset::Calm => Rgb8Pixel { red: 31, green: 33, blue: 37 },
            JacquardPreset::Upholstery => Rgb8Pixel { red: 32, green: 34, blue: 37 },
            JacquardPreset::EinkCalm => Rgb8Pixel { red: 32, green: 34, blue: 37 },
        }
    }

    /// Returns the lighter tone.
    #[verifier::when_used_as_spec(spec_light)]
    pub fn light(self) -> (tone: Rgb8Pixel)
        ensures
            tone == self.spec_light(),
    {
        match self {
            JacquardPreset::Original => Rgb8Pixel { red: 43, green: 46, blue: 51 },
            JacquardPreset::Calm => Rgb8Pixel { red: 43, green: 46, blue: 51 },
            JacquardPreset::Upholstery => Rgb8Pixel { red: 39, green: 42, blue: 46 },
            JacquardPreset::EinkCalm => Rgb8Pixel { red: 62, green: 66, blue: 72 },
        }
    }
}

/// The tones of the preset for E-Ink stay apart when luminance is cut to four
/// bits.
pub proof fn law_eink_tones_survive_four_bits()
    ensures
        JacquardPreset::EinkCalm.dark().luminance() / 16 == 2,
        JacquardPreset::EinkCalm.light().luminance() / 16 == 4,
{
}

/// A requested background buffer was empty or exceeded its fixed memory bound.
#[derive(Debug, Clone, Copy, PartialEq, Eq, Structural)]
pub enum JacquardError {
    /// Width or height was zero.
    EmptyDimensions,
    /// Pixel count overflowed or exceeded the four-megapixel safety bound.
    TooManyPixels,
}

impl JacquardError {
    /// Describes the error for an operator.
    pub fn message(&self) -> (message: String)
        ensures
            message@ == (match self {
                JacquardError::EmptyDimensions => "jacquard dimensions must be nonzero"@,
                JacquardError::TooManyPixels => "jacquard dimensions exceed the pixel bound"@,
            }),
    {
        match self {
            JacquardError::EmptyDimensions => "jacquard dimensions must be nonzero".to_owned(),
            JacquardError::TooManyPixels => {
                "jacquard dimensions exceed the pixel bound".to_owned()
            },
        }
    }
}

/// Returns the pixel count of a pattern, unless it is empty or too large.
pub fn bounded_pixel_count(width: u32, height: u32) -> (result: Result<usize, JacquardError>)
    ensures
        match result {
            Ok(count) => width != 0 && height != 0 && count == width * height <= MAX_PIXELS,
            Err(JacquardError::EmptyDimensions) => width == 0 || height == 0,
            Err(JacquardError::TooManyPixels) => width != 0 && height != 0 && width * height
                > MAX_PIXELS,
        },
{
    if width == 0 || height == 0 {
        return Err(JacquardError::EmptyDimensions);
    }
    match (width as usize).checked_mul(height as usize) {
        Some(count) => if count > MAX_PIXELS {
            Err(JacquardError::TooManyPixels)
        } else {
            Ok(count)
        },
        None => Err(JacquardError::TooManyPixels),
    }
}

/// The ordered-dither threshold at a position: 0 to 63, each once in a block
/// of eight by eight.
pub open spec fn dither_threshold(x: int, y: int) -> u8 {
    bayer()[(y % 8) * 8 + x % 8]
}

/// The eight-by-eight threshold block, row by row.
pub open spec fn bayer() -> Seq<u8> {
    seq![
        0, 48, 12, 60, 3, 51, 15, 63,
        32, 16, 44, 28, 35, 19, 47, 31,
        8, 56, 4, 52, 11, 59, 7, 55,
        40, 24, 36, 20, 43, 27, 39, 23,
        2, 50, 14, 62, 1, 49, 13, 61,
        34, 18, 46, 30, 33, 17, 45, 29,
        10, 58, 6, 54, 9, 57, 5, 53,
        42, 26, 38, 22, 41, 25, 37, 21,
    ]
}

/// The tone of a pixel with the given number of covered subpixels.
pub open spec fn tone(preset: JacquardPreset, coverage: u8, x: int, y: int) -> Rgb8Pixel {
    if 16 * coverage > dither_threshold(x, y) {
        preset.light()
    } else {
        preset.dark()
    }
}

/// The pixels of a pattern, row by row, for the covered subpixels of each.
pub open spec fn shaded(
    preset: JacquardPreset,
    width: u32,
    coverage: Seq<u8>,
) -> Seq<Rgb8Pixel> {
    Seq::new(
        coverage.len(),
        |i: int| tone(preset, coverage[i], i % (width as int), i / (width as int)),
    )
}

/// Shades a pattern: each pixel becomes the lighter or the darker tone, by the
/// number of its covered subpixels (0 to 4) and the ordered dither.
pub fn shade_background(
    width: u32,
    height: u32,
    preset: JacquardPreset,
    coverage: &[u8],
) -> (result: Result<Vec<Rgb8Pixel>, JacquardError>)
    requires
        coverage@.len() == width * height,
    ensures
        match result {
            Ok(pixels) => {
                &&& width != 0 && height != 0
                &&& width * height <= MAX_PIXELS
                &&& pixels@ == shaded(preset, width, coverage@)
            },
            Err(JacquardError::EmptyDimensions) => width == 0 || height == 0,
            Err(JacquardError::TooManyPixels) => width != 0 && height != 0 && width * height
                > MAX_PIXELS,
        },
{
    let count: usize = match bounded_pixel_count(width, height) {
        Ok(count) => count,
        Err(error) => {
            return Err(error);
        },
    };
    let thresholds: [u8; 64] = [
        0, 48, 12, 60, 3, 51, 15, 63,
        32, 16, 44, 28, 35, 19, 47, 31,
        8, 56, 4, 52, 11, 59, 7, 55,
        40, 24, 36, 20, 43, 27, 39, 23,
        2, 50, 14, 62, 1, 49, 13, 61,
        34, 18, 46, 30, 33, 17, 45, 29,
        10, 58, 6, 54, 9, 57, 5, 53,
        42, 26, 38, 22, 41, 25, 37, 21,
    ];
    assert(thresholds@ =~= bayer());
    let ghost all = shaded(preset, width, coverage@);
    let mut pixels: Vec<Rgb8Pixel> = Vec::new();
    for i in 0..count
        invariant
            thresholds@ == bayer(),
            width > 0,
            count == coverage@.len() == all.len(),
            all == shaded(preset, width, coverage@),
            pixels@ == all.take(i as int),
    {
        let x: usize = i % width as usize;
        let y: usize = i / width as usize;
        let threshold: u8 = thresholds[(y % 8) * 8 + x % 8];
        let lit: bool = coverage[i] as u32 * 16 > threshold as u32;
        let pixel: Rgb8Pixel = if lit {
            preset.light()
        } else {
            preset.dark()
        };
        assert(all[i as int] == pixel);
        pixels.push(pixel);
        assert(all.take(i + 1) =~= all.take(i as int).push(pixel));
    }
    assert(all.take(count as int) =~= all);
    Ok(pixels)
}

/// A pattern has two tones only.
pub proof fn law_patterns_have_two_tones(
    preset: JacquardPreset,
    width: u32,
    coverage: Seq<u8>,
    i: int,
)
    requires
        0 <= i < coverage.len(),
    ensures
        shaded(preset, width, coverage)[i] == preset.dark() || shaded(preset, width, coverage)[i]
            == preset.light(),
{
}

/// A pixel without covered subpixels is dark, and one whose four subpixels are
/// covered is light, wherever it stands.
pub proof fn law_full_and_empty_pixels_ignore_the_dither(preset: JacquardPreset, x: int, y: int)
    requires
        0 <= x,
        0 <= y,
    ensures
        tone(preset, 0, x, y) == preset.dark(),
        tone(preset, 4, x, y) == preset.light(),
{
    let k = (y % 8) * 8 + x % 8;
    assert(0 <= k < 64);
    assert(forall|j: int| 0 <= j < 64 ==> #[trigger] bayer()[j] < 64);
}

/// A background is a file of 5 to 64 letters, digits, dots, dashes and
/// underscores, of which the first is a letter or digit and the last are `.png`.
pub proof fn law_background_names_are_plain(name: Seq<char>)
    ensures
        is_background_name(name) <==> {
            let n = name.len() as int;
            &&& 5 <= n <= 64
            &&& 'a' <= name[0] <= 'z' || 'A' <= name[0] <= 'Z' || '0' <= name[0] <= '9'
            &&& forall|i: int|
                0 <= i < n ==> {
                    let c = #[trigger] name[i];
                    ||| 'a' <= c <= 'z'
                    ||| 'A' <= c <= 'Z'
                    ||| '0' <= c <= '9'
                    ||| c == '.' || c == '_' || c == '-'
                }
            &&& name[n - 4] == '.' && name[n - 3] == 'p' && name[n - 2] == 'n' && name[n - 1] == 'g'
        },
{
    reveal_strlit(".png");
    let suffix = ".png"@;
    assert(suffix.len() == 4);
    let n = name.len() as int;
    if is_background_name(name) {
        assert forall|i: int| 0 <= i < n implies {
            let c = #[trigger] name[i];
            ||| 'a' <= c <= 'z'
            ||| 'A' <= c <= 'Z'
            ||| '0' <= c <= '9'
            ||| c == '.' || c == '_' || c == '-'
        } by {
            assert(CharSet::FileName.has(name[i]));
        }
        let tail = name.subrange(n - 4, n);
        assert(tail[0] == suffix[0] && tail[1] == suffix[1] && tail[2] == suffix[2] && tail[3]
            == suffix[3]);
    }
    if n >= 5 && name[n - 4] == '.' && name[n - 3] == 'p' && name[n - 2] == 'n' && name[n - 1]
        == 'g' {
        assert(name.subrange(n - 4, n) =~= suffix);
    }
}

/// A label has spaces for dashes and underscores and begins with a capital.
pub proof fn law_labels_are_written_out(stem: Seq<char>, i: int)
    requires
        0 <= i < stem.len(),
    ensures
        titled(stem).len() == stem.len(),
        stem[i] == '-' || stem[i] == '_' ==> titled(stem)[i] == ' ',
        stem[i] != '-' && stem[i] != '_' && i > 0 ==> titled(stem)[i] == stem[i],
        stem[0] != '-' && stem[0] != '_' ==> titled(stem)[0] == crate::text::upper(stem[0]),
{
}

proof fn known_names_have_known_stems(stem: Seq<char>)
    ensures
        stem + ".png"@ == "waves.png"@ ==> stem == "waves"@,
        stem + ".png"@ == "topography.png"@ ==> stem == "topography"@,
        "waves.png"@ != "topography.png"@,
{
    reveal_strlit("waves.png");
    reveal_strlit("topography.png");
    reveal_strlit("waves");
    reveal_strlit("topography");
    reveal_strlit(".png");
    let whole = stem + ".png"@;
    assert("waves.png"@.len() == 9 && "topography.png"@.len() == 14);
    if whole == "waves.png"@ {
        assert(stem =~= whole.take(5));
        assert("waves.png"@.take(5) =~= "waves"@);
    }
    if whole == "topography.png"@ {
        assert(stem =~= whole.take(10));
        assert("topography.png"@.take(10) =~= "topography"@);
    }
}

/// Two known backgrounds have labels of their own, and the others those of their
/// names without `.png`.
pub proof fn law_known_backgrounds_have_labels(stem: Seq<char>)
    ensures
        file_label("waves.png"@) == "Waves"@,
        file_label("topography.png"@) == "Topography"@,
        stem != "waves"@ && stem != "topography"@ ==> file_label(stem + ".png"@) == titled(stem),
{
    crate::text::law_finding_is_cutting_out(stem, ".png"@, Seq::empty());
    known_names_have_known_stems(stem);
}

/// A choice is told by its setting: `pattern`, two short names, or a file that
/// may be a background; nothing else is a setting.
pub proof fn law_settings_name_choices(value: Seq<char>, name: Seq<char>)
    ensures
        Choice::of_setting("pattern"@) == Some(Choice::Pattern),
        Choice::of_setting("waves"@) == Some(Choice::File { name: "waves.png"@ }),
        Choice::of_setting("topography"@) == Some(Choice::File { name: "topography.png"@ }),
        Choice::of_setting("file:"@ + name) == (if is_background_name(name) {
            Some(Choice::File { name })
        } else {
            None
        }),
        value != "pattern"@ && value != "waves"@ && value != "topography"@ && !crate::text::begins(
            value,
            "file:"@,
        ) ==> Choice::of_setting(value) is None,
        Choice::Pattern.label() == "Pattern"@,
        Choice::Pattern.detail() == "Generated on device"@,
        (Choice::File { name }).label() == file_label(name),
        (Choice::File { name }).detail() == "Image from ferrink/backgrounds"@,
{
    reveal_strlit("pattern");
    reveal_strlit("waves");
    reveal_strlit("topography");
    reveal_strlit("file:");
    let told = "file:"@ + name;
    crate::text::law_finding_is_cutting_out(Seq::empty(), "file:"@, name);
    assert(told[0] == 'f');
    assert("pattern"@[0] == 'p' && "waves"@[0] == 'w' && "topography"@[0] == 't');
}

/// Backgrounds that can be shown and have a proper name are usable, in order.
pub proof fn law_valid_backgrounds_are_usable(
    entries: Seq<BackgroundEntry>,
    entry: BackgroundEntry,
)
    ensures
        usable_names(Seq::<BackgroundEntry>::empty()) == Seq::<Seq<char>>::empty(),
        entry.valid && is_background_name(entry.name@) ==> usable_names(entries.push(entry))
            == usable_names(entries).push(entry.name@),
        !(entry.valid && is_background_name(entry.name@)) ==> usable_names(entries.push(entry))
            == usable_names(entries),
{
    assert(entries.push(entry).drop_last() =~= entries);
}

/// The pattern is offered first, and behind it, ascending, the first 15 usable
/// backgrounds: all of them where there are fewer.
pub proof fn law_fifteen_backgrounds_are_offered(
    list: Seq<Choice>,
    usable: Seq<Seq<char>>,
    i: int,
    name: Seq<char>,
)
    requires
        offers(list, usable),
    ensures
        1 <= list.len() <= 16,
        list[0] == Choice::Pattern,
        1 <= i < list.len() ==> list[i] is File && usable.contains(list[i]->name),
        2 <= i < list.len() ==> crate::string_map::precedes(list[i - 1]->name, list[i]->name),
        usable.contains(name) && list.len() < 16 ==> exists|k: int|
            1 <= k < list.len() && #[trigger] list[k] == (Choice::File { name }),
        usable.contains(name) && list.len() == 16 && 1 <= i < 16 && !(exists|k: int|
            1 <= k < list.len() && #[trigger] list[k] == (Choice::File { name }))
            ==> crate::string_map::precedes(list[i]->name, name),
{
    let rest = list.skip(1);
    let names = file_names(rest);
    assert(names.len() == list.len() - 1);
    assert forall|k: int| 1 <= k < list.len() implies #[trigger] list[k] == (Choice::File {
        name: names[k - 1],
    }) by {
        assert(rest[k - 1] == list[k]);
        assert(list[k] is File);
    }
    if 1 <= i < list.len() {
        assert(usable.contains(names[i - 1]));
    }
    if 2 <= i < list.len() {
        assert(list[i - 1] is File);
        assert(crate::string_map::precedes(names[i - 2], names[i - 1]));
    }
    if usable.contains(name) {
        if names.contains(name) {
            let k = choose|k: int| 0 <= k < names.len() && names[k] == name;
            assert(list[k + 1] == (Choice::File { name }));
        } else if 1 <= i < list.len() {
            assert(crate::string_map::precedes(names[i - 1], name));
        }
    }
}

/// The light tone of a pattern is lighter than its dark tone, and both are those
/// of its preset.
pub proof fn law_tones_are_those_of_the_preset(preset: JacquardPreset)
    ensures
        preset.dark().luminance() < preset.light().luminance(),
        ({
            let tones = |dark: Rgb8Pixel, light: Rgb8Pixel|
                (dark.red, dark.green, dark.blue, light.red, light.green, light.blue);
            let told = tones(preset.dark(), preset.light());
            match preset {
                JacquardPreset::Original | JacquardPreset::Calm => told == (
                    31u8,
                    33u8,
                    37u8,
                    43u8,
                    46u8,
                    51u8,
                ),
                JacquardPreset::Upholstery => told == (32u8, 34u8, 37u8, 39u8, 42u8, 46u8),
                JacquardPreset::EinkCalm => told == (32u8, 34u8, 37u8, 62u8, 66u8, 72u8),
            }
        }),
{
}

/// In which turn the four places of a square of two by two are lit.
pub open spec fn turn(x: int, y: int) -> int {
    if y % 2 == 0 {
        3 * (x % 2)
    } else {
        2 - x % 2
    }
}

/// The dither is ordered: the thresholds of eight by eight places come from the
/// turns of the places, of their pairs and of their fours.
pub proof fn law_dither_is_ordered(x: int, y: int)
    requires
        0 <= x,
        0 <= y,
    ensures
        dither_threshold(x, y) == 16 * turn(x, y) + 4 * turn(x / 2, y / 2) + turn(x / 4, y / 4),
        dither_threshold(x + 8, y) == dither_threshold(x, y),
        dither_threshold(x, y + 8) == dither_threshold(x, y),
{
    let a = x % 8;
    let b = y % 8;
    assert(x % 2 == a % 2 && y % 2 == b % 2);
    assert(x / 2 % 2 == a / 2 % 2 && y / 2 % 2 == b / 2 % 2);
    assert(x / 4 % 2 == a / 4 % 2 && y / 4 % 2 == b / 4 % 2);
    let row = bayer();
    let at = b * 8 + a;
    assert(dither_threshold(x, y) == row[at]);
    if b == 0 {
        assert(row[at] == 16 * turn(a, 0) + 4 * turn(a / 2, 0) + turn(a / 4, 0));
    } else if b == 1 {
        assert(row[at] == 16 * turn(a, 1) + 4 * turn(a / 2, 0) + turn(a / 4, 0));
    } else if b == 2 {
        assert(row[at] == 16 * turn(a, 2) + 4 * turn(a / 2, 1) + turn(a / 4, 0));
    } else if b == 3 {
        assert(row[at] == 16 * turn(a, 3) + 4 * turn(a / 2, 1) + turn(a / 4, 0));
    } else if b == 4 {
        assert(row[at] == 16 * turn(a, 4) + 4 * turn(a / 2, 2) + turn(a / 4, 1));
    } else if b == 5 {
        assert(row[at] == 16 * turn(a, 5) + 4 * turn(a / 2, 2) + turn(a / 4, 1));
    } else if b == 6 {
        assert(row[at] == 16 * turn(a, 6) + 4 * turn(a / 2, 3) + turn(a / 4, 1));
    } else {
        assert(row[at] == 16 * turn(a, 7) + 4 * turn(a / 2, 3) + turn(a / 4, 1));
    }
}

/// A pixel is light exactly when four times its quarters of coverage reach above
/// its threshold, so more coverage never darkens it; each pixel is shaded at its
/// own place.
pub proof fn law_pixels_are_shaded_at_their_place(
    preset: JacquardPreset,
    width: u32,
    coverage: Seq<u8>,
    x: int,
    y: int,
    more: u8,
)
    requires
        0 <= x < width,
        0 <= y,
        y * width + x < coverage.len(),
    ensures
        ({
            let at = y * width + x;
            &&& shaded(preset, width, coverage).len() == coverage.len()
            &&& shaded(preset, width, coverage)[at] == tone(preset, coverage[at], x, y)
            &&& tone(preset, coverage[at], x, y) == preset.light() <==> 16 * coverage[at]
                > dither_threshold(x, y)
            &&& tone(preset, coverage[at], x, y) == preset.light() && more >= coverage[at]
                ==> tone(preset, more, x, y) == preset.light()
        }),
{
    let at = y * width + x;
    assert(y * width >= 0) by (nonlinear_arith)
        requires
            y >= 0,
            width >= 0,
    ;
    vstd::arithmetic::div_mod::lemma_fundamental_div_mod_converse(at, width as int, y, x);
    law_tones_are_those_of_the_preset(preset);
}

} // verus!
