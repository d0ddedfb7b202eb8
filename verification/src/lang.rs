//! The language of the panel: Russian where the game runs in Russian, else English.
//!
//! Only what the player sees has two languages.

use vstd::prelude::*;

use crate::text;

verus! {

/// The number that the game gives to Russian.
pub const RUSSIAN_ID: i32 = 6;

/// The language that is shown. It is Russian until the game has been asked.
#[derive(Debug, Clone, Copy, PartialEq, Eq, Structural)]
pub struct Lang {
    pub russian: bool,
}

impl Lang {
    /// The language before the game has been asked.
    pub fn new() -> (r: Lang)
        ensures
            r.russian,
    {
        Lang { russian: true }
    }
}

/// Sets the language.
pub fn set_russian(lang: &mut Lang, yes: bool)
    ensures
        final(lang).russian == yes,
{
    lang.russian = yes;
}

/// Whether the language is Russian.
pub fn is_russian(lang: &Lang) -> (r: bool)
    ensures
        r == lang.russian,
{
    lang.russian
}

/// All that the player sees, in the order in which it appears on the panel.
#[derive(Debug, Clone, Copy)]
pub struct Strings {
    pub auto_fish: &'static str,
    pub note_wait_cast: &'static str,
    pub note_recast: &'static str,
    /// With two slots: where the rod is cast to.
    pub note_aim: &'static str,
    pub quick_stack: &'static str,
    pub pull_enemies: &'static str,
    pub bobber: &'static str,
    pub bobber_cast: &'static str,
    pub bobber_none: &'static str,
    pub free_slots: &'static str,
    pub auto_potions: &'static str,
    pub potions_shelf: &'static str,
    pub tab_filter: &'static str,
    pub tab_stats: &'static str,
    pub search_hint: &'static str,
    pub hint_no_potion: &'static str,
    pub hint_list_black: &'static str,
    pub hint_list_white: &'static str,
    pub stat_time: &'static str,
    pub stat_caught: &'static str,
    pub stat_crates: &'static str,
    pub stat_skipped: &'static str,
    pub stat_bite: &'static str,
    pub stat_potions: &'static str,
    /// With one slot: seconds with a tenth.
    pub stat_seconds: &'static str,
    pub chat_blacklist: &'static str,
    pub chat_whitelist: &'static str,
    pub chat_quest: &'static str,
    pub chat_spawn: &'static str,
    pub chat_potion: &'static str,
    /// This one and the next four with one slot: the name and the icon.
    pub chat_item_skipped: &'static str,
    pub chat_quest_caught: &'static str,
    pub chat_spawn_skipped: &'static str,
    pub chat_spawn_hooked: &'static str,
    pub chat_potion_used: &'static str,
}

impl Strings {
    /// The labels of the rows of the main window, by the longest of which its width is
    /// chosen. The note behind the first row is measured apart.
    pub fn row_labels(&self) -> (r: [&'static str; 6])
        ensures
            r@ == seq![
                self.quick_stack,
                self.pull_enemies,
                self.bobber,
                self.free_slots,
                self.auto_potions,
                self.potions_shelf,
            ],
    {
        let r = [
            self.quick_stack,
            self.pull_enemies,
            self.bobber,
            self.free_slots,
            self.auto_potions,
            self.potions_shelf,
        ];
        assert(r@ =~= seq![
            self.quick_stack,
            self.pull_enemies,
            self.bobber,
            self.free_slots,
            self.auto_potions,
            self.potions_shelf,
        ]);
        r
    }
}

/// Whether these are the Russian texts.
pub open spec fn in_russian(s: Strings) -> bool {
    &&& s.auto_fish@ == "Авторыбалка"@
    &&& s.note_wait_cast@ == " (жду первого броска удочки)"@
    &&& s.note_recast@ == " (забросьте удочку заново)"@
    &&& s.note_aim@ == " (зафиксировано {}:{})"@
    &&& s.quick_stack@ == "Сундуки разложить при заполнении"@
    &&& s.pull_enemies@ == "Подсекать врагов (Герцог Рыброн)"@
    &&& s.bobber@ == "Поплавок"@
    &&& s.bobber_cast@ == "Заброшен"@
    &&& s.bobber_none@ == "Нет"@
    &&& s.free_slots@ == "Свободные ячейки"@
    &&& s.auto_potions@ == "Автопитьё зелий"@
    &&& s.potions_shelf@ == "Зелья для автоиспользования:"@
    &&& s.tab_filter@ == "Фильтр"@
    &&& s.tab_stats@ == "Статистика"@
    &&& s.search_hint@ == "Имя:"@
    &&& s.hint_no_potion@ == "Этого зелья нет в инвентаре.\nПоложите его в инвентарь, чтобы включить автопитьё."@
    &&& s.hint_list_black@ == "Чёрный список: беру всё,\nкроме отмеченного красным.\nЩелчок — сменить на белый."@
    &&& s.hint_list_white@ == "Белый список: беру только\nотмеченное зелёным.\nЩелчок — сменить на чёрный."@
    &&& s.stat_time@ == "Время рыбалки"@
    &&& s.stat_caught@ == "Поймано предметов"@
    &&& s.stat_crates@ == "Поймано ящиков"@
    &&& s.stat_skipped@ == "Пропущено по фильтру"@
    &&& s.stat_bite@ == "Среднее время поклёвки"@
    &&& s.stat_potions@ == "Зелья выпито"@
    &&& s.stat_seconds@ == "{} сек."@
    &&& s.chat_blacklist@ == "Чёрный список"@
    &&& s.chat_whitelist@ == "Белый список"@
    &&& s.chat_quest@ == "Квест рыбака"@
    &&& s.chat_spawn@ == "Спавн"@
    &&& s.chat_potion@ == "Зелье"@
    &&& s.chat_item_skipped@ == "пропущен предмет {}"@
    &&& s.chat_quest_caught@ == "поймана квестовая рыба {}"@
    &&& s.chat_spawn_skipped@ == "пропущен спавн {}"@
    &&& s.chat_spawn_hooked@ == "заспавнен {}"@
    &&& s.chat_potion_used@ == "авто-использовано {}"@
}

/// Whether these are the English texts.
pub open spec fn in_english(s: Strings) -> bool {
    &&& s.auto_fish@ == "Auto-fishing"@
    &&& s.note_wait_cast@ == " (waiting for your first cast)"@
    &&& s.note_recast@ == " (cast the rod again)"@
    &&& s.note_aim@ == " (locked at {}:{})"@
    &&& s.quick_stack@ == "Stack into nearby chests when full"@
    &&& s.pull_enemies@ == "Hook enemies (Duke Fishron)"@
    &&& s.bobber@ == "Bobber"@
    &&& s.bobber_cast@ == "In the water"@
    &&& s.bobber_none@ == "None"@
    &&& s.free_slots@ == "Free slots"@
    &&& s.auto_potions@ == "Auto-drink potions"@
    &&& s.potions_shelf@ == "Potions to use automatically:"@
    &&& s.tab_filter@ == "Filter"@
    &&& s.tab_stats@ == "Statistics"@
    &&& s.search_hint@ == "Name:"@
    &&& s.hint_no_potion@ == "You have none of this potion.\nPut one in your inventory to enable auto-drinking."@
    &&& s.hint_list_black@ == "Blacklist: keeping everything\nexcept what is marked red.\nClick to switch to a whitelist."@
    &&& s.hint_list_white@ == "Whitelist: keeping only\nwhat is marked green.\nClick to switch to a blacklist."@
    &&& s.stat_time@ == "Time fishing"@
    &&& s.stat_caught@ == "Items caught"@
    &&& s.stat_crates@ == "Crates caught"@
    &&& s.stat_skipped@ == "Skipped by filter"@
    &&& s.stat_bite@ == "Average time to bite"@
    &&& s.stat_potions@ == "Potions drunk"@
    &&& s.stat_seconds@ == "{} sec."@
    &&& s.chat_blacklist@ == "Blacklist"@
    &&& s.chat_whitelist@ == "Whitelist"@
    &&& s.chat_quest@ == "Angler quest"@
    &&& s.chat_spawn@ == "Spawn"@
    &&& s.chat_potion@ == "Potion"@
    &&& s.chat_item_skipped@ == "skipped {}"@
    &&& s.chat_quest_caught@ == "caught the quest fish {}"@
    &&& s.chat_spawn_skipped@ == "skipped the spawn {}"@
    &&& s.chat_spawn_hooked@ == "hooked {}"@
    &&& s.chat_potion_used@ == "auto-used {}"@
}

/// The Russian texts.
pub fn ru() -> (r: Strings)
    ensures
        in_russian(r),
{
    Strings {
        auto_fish: "Авторыбалка",
        note_wait_cast: " (жду первого броска удочки)",
        note_recast: " (забросьте удочку заново)",
        note_aim: " (зафиксировано {}:{})",
        quick_stack: "Сундуки разложить при заполнении",
        pull_enemies: "Подсекать врагов (Герцог Рыброн)",
        bobber: "Поплавок",
        bobber_cast: "Заброшен",
        bobber_none: "Нет",
        free_slots: "Свободные ячейки",
        auto_potions: "Автопитьё зелий",
        potions_shelf: "Зелья для автоиспользования:",
        tab_filter: "Фильтр",
        tab_stats: "Статистика",
        search_hint: "Имя:",
        hint_no_potion: "Этого зелья нет в инвентаре.\nПоложите его в инвентарь, чтобы включить автопитьё.",
        hint_list_black: "Чёрный список: беру всё,\nкроме отмеченного красным.\nЩелчок — сменить на белый.",
        hint_list_white: "Белый список: беру только\nотмеченное зелёным.\nЩелчок — сменить на чёрный.",
        stat_time: "Время рыбалки",
        stat_caught: "Поймано предметов",
        stat_crates: "Поймано ящиков",
        stat_skipped: "Пропущено по фильтру",
        stat_bite: "Среднее время поклёвки",
        stat_potions: "Зелья выпито",
        stat_seconds: "{} сек.",
        chat_blacklist: "Чёрный список",
        chat_whitelist: "Белый список",
        chat_quest: "Квест рыбака",
        chat_spawn: "Спавн",
        chat_potion: "Зелье",
        chat_item_skipped: "пропущен предмет {}",
        chat_quest_caught: "поймана квестовая рыба {}",
        chat_spawn_skipped: "пропущен спавн {}",
        chat_spawn_hooked: "заспавнен {}",
        chat_potion_used: "авто-использовано {}",
    }
}

/// The English texts.
pub fn en() -> (r: Strings)
    ensures
        in_english(r),
{
    Strings {
        auto_fish: "Auto-fishing",
        note_wait_cast: " (waiting for your first cast)",
        note_recast: " (cast the rod again)",
        note_aim: " (locked at {}:{})",
        quick_stack: "Stack into nearby chests when full",
        pull_enemies: "Hook enemies (Duke Fishron)",
        bobber: "Bobber",
        bobber_cast: "In the water",
        bobber_none: "None",
        free_slots: "Free slots",
        auto_potions: "Auto-drink potions",
        potions_shelf: "Potions to use automatically:",
        tab_filter: "Filter",
        tab_stats: "Statistics",
        search_hint: "Name:",
        hint_no_potion: "You have none of this potion.\nPut one in your inventory to enable auto-drinking.",
        hint_list_black: "Blacklist: keeping everything\nexcept what is marked red.\nClick to switch to a whitelist.",
        hint_list_white: "Whitelist: keeping only\nwhat is marked green.\nClick to switch to a blacklist.",
        stat_time: "Time fishing",
        stat_caught: "Items caught",
        stat_crates: "Crates caught",
        stat_skipped: "Skipped by filter",
        stat_bite: "Average time to bite",
        stat_potions: "Potions drunk",
        stat_seconds: "{} sec.",
        chat_blacklist: "Blacklist",
        chat_whitelist: "Whitelist",
        chat_quest: "Angler quest",
        chat_spawn: "Spawn",
        chat_potion: "Potion",
        chat_item_skipped: "skipped {}",
        chat_quest_caught: "caught the quest fish {}",
        chat_spawn_skipped: "skipped the spawn {}",
        chat_spawn_hooked: "hooked {}",
        chat_potion_used: "auto-used {}",
    }
}

/// The texts of the language that is shown.
pub fn t(lang: &Lang) -> (r: Strings)
    ensures
        lang.russian ==> in_russian(r),
        !lang.russian ==> in_english(r),
{
    if lang.russian {
        ru()
    } else {
        en()
    }
}

// ---------------------------------------------------------------------------
// Templates
// ---------------------------------------------------------------------------

/// Where the first slot of a template from `from` on begins; its length where there is
/// none.
pub open spec fn slot(template: Seq<char>, from: int) -> int
    decreases template.len() - from,
{
    if from + 1 >= template.len() {
        template.len() as int
    } else if from >= 0 && template[from] == '{' && template[from + 1] == '}' {
        from
    } else {
        slot(template, from + 1)
    }
}

/// A template whose slots are filled with values, in their order, as far as both
/// reach.
pub open spec fn filled(template: Seq<char>, values: Seq<Seq<char>>) -> Seq<char>
    decreases values.len(),
{
    let at = slot(template, 0);
    if values.len() == 0 || at >= template.len() {
        template
    } else {
        template.take(at) + values[0] + filled(template.skip(at + 2), values.drop_first())
    }
}

/// The model of some values.
pub open spec fn texts(values: Seq<&str>) -> Seq<Seq<char>> {
    values.map_values(|v: &str| v@)
}

proof fn lemma_slot(template: Seq<char>, from: int)
    requires
        0 <= from,
    ensures
        slot(template, from) < template.len() ==> {
            let at = slot(template, from);
            &&& from <= at
            &&& at + 1 < template.len()
            &&& template[at] == '{'
            &&& template[at + 1] == '}'
        },
        forall|i: int|
            from <= i < slot(template, from) && i + 1 < template.len() ==> !(#[trigger] template[i]
                == '{' && template[i + 1] == '}'),
    decreases template.len() - from,
{
    if from + 1 < template.len() && !(template[from] == '{' && template[from + 1] == '}') {
        lemma_slot(template, from + 1);
    }
}

/// A slot is where it is in what follows a place.
proof fn lemma_slot_behind(template: Seq<char>, start: int, from: int)
    requires
        0 <= start <= from <= template.len(),
    ensures
        slot(template, from) == start + slot(template.skip(start), from - start),
    decreases template.len() - from,
{
    let rest = template.skip(start);
    if from + 1 < template.len() {
        assert(rest[from - start] == template[from]);
        assert(rest[from - start + 1] == template[from + 1]);
        if !(template[from] == '{' && template[from + 1] == '}') {
            lemma_slot_behind(template, start, from + 1);
        }
    }
}

/// Fills the slots of a template, in their order. Values without a slot are left out,
/// and slots without a value stay.
pub fn fill(template: &str, values: &[&str]) -> (r: String)
    ensures
        r@ == filled(template@, texts(values@)),
{
    let chars = text::chars_of(template);
    let n: usize = chars.len();
    let mut out = String::new();
    let mut start: usize = 0;
    let mut k: usize = 0;
    assert(template@.skip(0) =~= template@);
    assert(texts(values@).skip(0) =~= texts(values@));
    assert(out@ + filled(template@, texts(values@)) =~= filled(template@, texts(values@)));
    while k < values.len()
        invariant
            chars@ == template@,
            n == chars@.len(),
            start <= n,
            k <= values@.len(),
            out@ + filled(template@.skip(start as int), texts(values@).skip(k as int)) == filled(
                template@,
                texts(values@),
            ),
        ensures
            start <= n,
            out@ + template@.skip(start as int) == filled(template@, texts(values@)),
        decreases values@.len() - k,
    {
        let ghost rest = template@.skip(start as int);
        let ghost left = texts(values@).skip(k as int);
        let mut at: usize = start;
        assert(slot(template@, start as int) == start + slot(rest, 0)) by {
            lemma_slot_behind(template@, start as int, start as int);
        }
        while n - at >= 2 && !(chars[at] == '{' && chars[at + 1] == '}')
            invariant
                chars@ == template@,
                n == chars@.len(),
                start <= at <= n,
                slot(template@, at as int) == slot(template@, start as int),
            decreases n - at,
        {
            at = at + 1;
        }
        if n - at < 2 {
            assert(slot(template@, at as int) == n);
            assert(filled(rest, left) == rest);
            break;
        }
        assert(slot(template@, at as int) == at);
        assert(slot(rest, 0) == at - start);
        out.append(template.substring_char(start, at));
        out.append(values[k]);
        proof {
            assert(template@.subrange(start as int, at as int) =~= rest.take(at - start));
            assert(left[0] == values@[k as int]@);
            assert(rest.skip(at - start + 2) =~= template@.skip(at + 2));
            assert(left.drop_first() =~= texts(values@).skip(k + 1));
            let tail = filled(template@.skip(at + 2), texts(values@).skip(k + 1));
            assert(filled(rest, left) == rest.take(at - start) + left[0] + tail);
            assert(out@ + tail =~= filled(template@, texts(values@)));
        }
        start = at + 2;
        k = k + 1;
        proof {
            if k == values@.len() {
                assert(texts(values@).skip(k as int).len() == 0);
            }
        }
    }
    let tail = template.substring_char(start, n);
    assert(tail@ =~= template@.skip(start as int));
    out.append(tail);
    out
}

/// A template without a slot stays as it is, whatever the values.
pub proof fn law_text_without_slots_is_kept(template: Seq<char>, values: Seq<Seq<char>>)
    requires
        forall|i: int|
            0 <= i && i + 1 < template.len() ==> !(#[trigger] template[i] == '{' && template[i + 1]
                == '}'),
    ensures
        filled(template, values) == template,
{
    lemma_slot(template, 0);
}

/// The first slot takes the first value, and the rest of the template the rest of the
/// values: no value is looked through for slots. A brace alone is no slot.
pub proof fn law_slots_are_filled_in_order(
    before: Seq<char>,
    after: Seq<char>,
    value: Seq<char>,
    values: Seq<Seq<char>>,
)
    requires
        forall|i: int|
            0 <= i && i + 1 < before.len() ==> !(#[trigger] before[i] == '{' && before[i + 1]
                == '}'),
    ensures
        filled(before + seq!['{', '}'] + after, seq![value] + values) == before + value + filled(
            after,
            values,
        ),
{
    let template = before + seq!['{', '}'] + after;
    let all = seq![value] + values;
    let at = before.len() as int;
    assert(template[at] == '{' && template[at + 1] == '}');
    assert forall|i: int| 0 <= i < at implies !(#[trigger] template[i] == '{' && template[i + 1]
        == '}') by {
        assert(template[i] == before[i]);
        if i + 1 < at {
            assert(template[i + 1] == before[i + 1]);
        }
    }
    lemma_slot_found(template, 0, at);
    assert(template.take(at) =~= before);
    assert(template.skip(at + 2) =~= after);
    assert(all.drop_first() =~= values);
}

proof fn lemma_slot_found(template: Seq<char>, from: int, at: int)
    requires
        0 <= from <= at,
        at + 1 < template.len(),
        template[at] == '{',
        template[at + 1] == '}',
        forall|i: int|
            from <= i < at ==> !(#[trigger] template[i] == '{' && template[i + 1] == '}'),
    ensures
        slot(template, from) == at,
    decreases at - from,
{
    if from < at {
        assert(!(template[from] == '{' && template[from + 1] == '}'));
        lemma_slot_found(template, from + 1, at);
    }
}

} // verus!
