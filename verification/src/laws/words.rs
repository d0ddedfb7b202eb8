//! What the player reads, in both languages.

use vstd::prelude::*;

use crate::lang::Strings;
use crate::overlay::ui::{Label, Words};

verus! {

/// Every text in Russian.
pub proof fn law_russian_texts(s: Strings)
    requires
        crate::lang::in_russian(s),
    ensures
        s.auto_fish@ == "Авторыбалка"@,
        s.note_wait_cast@ == " (жду первого броска удочки)"@,
        s.note_recast@ == " (забросьте удочку заново)"@,
        s.note_aim@ == " (зафиксировано {}:{})"@,
        s.quick_stack@ == "Сундуки разложить при заполнении"@,
        s.pull_enemies@ == "Подсекать врагов (Герцог Рыброн)"@,
        s.bobber@ == "Поплавок"@,
        s.bobber_cast@ == "Заброшен"@,
        s.bobber_none@ == "Нет"@,
        s.free_slots@ == "Свободные ячейки"@,
        s.auto_potions@ == "Автопитьё зелий"@,
        s.potions_shelf@ == "Зелья для автоиспользования:"@,
        s.tab_filter@ == "Фильтр"@,
        s.tab_stats@ == "Статистика"@,
        s.search_hint@ == "Имя:"@,
        s.hint_no_potion@ == "Этого зелья нет в инвентаре.\nПоложите его в инвентарь, чтобы включить автопитьё."@,
        s.hint_list_black@ == "Чёрный список: беру всё,\nкроме отмеченного красным.\nЩелчок — сменить на белый."@,
        s.hint_list_white@ == "Белый список: беру только\nотмеченное зелёным.\nЩелчок — сменить на чёрный."@,
        s.stat_time@ == "Время рыбалки"@,
        s.stat_caught@ == "Поймано предметов"@,
        s.stat_crates@ == "Поймано ящиков"@,
        s.stat_skipped@ == "Пропущено по фильтру"@,
        s.stat_bite@ == "Среднее время поклёвки"@,
        s.stat_potions@ == "Зелья выпито"@,
        s.stat_seconds@ == "{} сек."@,
        s.chat_blacklist@ == "Чёрный список"@,
        s.chat_whitelist@ == "Белый список"@,
        s.chat_quest@ == "Квест рыбака"@,
        s.chat_spawn@ == "Спавн"@,
        s.chat_potion@ == "Зелье"@,
        s.chat_item_skipped@ == "пропущен предмет {}"@,
        s.chat_quest_caught@ == "поймана квестовая рыба {}"@,
        s.chat_spawn_skipped@ == "пропущен спавн {}"@,
        s.chat_spawn_hooked@ == "заспавнен {}"@,
        s.chat_potion_used@ == "авто-использовано {}"@,
{
}

/// Every text in English.
pub proof fn law_english_texts(s: Strings)
    requires
        crate::lang::in_english(s),
    ensures
        s.auto_fish@ == "Auto-fishing"@,
        s.note_wait_cast@ == " (waiting for your first cast)"@,
        s.note_recast@ == " (cast the rod again)"@,
        s.note_aim@ == " (locked at {}:{})"@,
        s.quick_stack@ == "Stack into nearby chests when full"@,
        s.pull_enemies@ == "Hook enemies (Duke Fishron)"@,
        s.bobber@ == "Bobber"@,
        s.bobber_cast@ == "In the water"@,
        s.bobber_none@ == "None"@,
        s.free_slots@ == "Free slots"@,
        s.auto_potions@ == "Auto-drink potions"@,
        s.potions_shelf@ == "Potions to use automatically:"@,
        s.tab_filter@ == "Filter"@,
        s.tab_stats@ == "Statistics"@,
        s.search_hint@ == "Name:"@,
        s.hint_no_potion@ == "You have none of this potion.\nPut one in your inventory to enable auto-drinking."@,
        s.hint_list_black@ == "Blacklist: keeping everything\nexcept what is marked red.\nClick to switch to a whitelist."@,
        s.hint_list_white@ == "Whitelist: keeping only\nwhat is marked green.\nClick to switch to a blacklist."@,
        s.stat_time@ == "Time fishing"@,
        s.stat_caught@ == "Items caught"@,
        s.stat_crates@ == "Crates caught"@,
        s.stat_skipped@ == "Skipped by filter"@,
        s.stat_bite@ == "Average time to bite"@,
        s.stat_potions@ == "Potions drunk"@,
        s.stat_seconds@ == "{} sec."@,
        s.chat_blacklist@ == "Blacklist"@,
        s.chat_whitelist@ == "Whitelist"@,
        s.chat_quest@ == "Angler quest"@,
        s.chat_spawn@ == "Spawn"@,
        s.chat_potion@ == "Potion"@,
        s.chat_item_skipped@ == "skipped {}"@,
        s.chat_quest_caught@ == "caught the quest fish {}"@,
        s.chat_spawn_skipped@ == "skipped the spawn {}"@,
        s.chat_spawn_hooked@ == "hooked {}"@,
        s.chat_potion_used@ == "auto-used {}"@,
{
}

/// Every label of the panel is the text of that name in the language of the strings; what
/// they do not hold is fixed.
pub proof fn law_labels_are_theirs(s: Strings)
    ensures
        crate::overlay::ui::wording(Label::AutoFish, s) == s.auto_fish@,
        crate::overlay::ui::wording(Label::QuickStack, s) == s.quick_stack@,
        crate::overlay::ui::wording(Label::Bobber, s) == s.bobber@,
        crate::overlay::ui::wording(Label::Cast, s) == s.bobber_cast@,
        crate::overlay::ui::wording(Label::NotCast, s) == s.bobber_none@,
        crate::overlay::ui::wording(Label::FreeSlots, s) == s.free_slots@,
        crate::overlay::ui::wording(Label::AutoPotions, s) == s.auto_potions@,
        crate::overlay::ui::wording(Label::Potions, s) == s.potions_shelf@,
        crate::overlay::ui::wording(Label::Filter, s) == s.tab_filter@,
        crate::overlay::ui::wording(Label::Stats, s) == s.tab_stats@,
        crate::overlay::ui::wording(Label::Time, s) == s.stat_time@,
        crate::overlay::ui::wording(Label::Caught, s) == s.stat_caught@,
        crate::overlay::ui::wording(Label::Crates, s) == s.stat_crates@,
        crate::overlay::ui::wording(Label::Skipped, s) == s.stat_skipped@,
        crate::overlay::ui::wording(Label::Average, s) == s.stat_bite@,
        crate::overlay::ui::wording(Label::Drunk, s) == s.stat_potions@,
        crate::overlay::ui::wording(Label::Fold, s) == "\u{25B2}"@,
        crate::overlay::ui::wording(Label::Unfold, s) == "\u{25BC}"@,
        crate::overlay::ui::wording(Label::Name, s) == "Terraria Auto Fisher"@,
        crate::overlay::ui::wording(Label::List, s) == "Список"@,
        crate::overlay::ui::wording(Label::White, s) == "Белый"@,
        crate::overlay::ui::wording(Label::Black, s) == "Чёрный"@,
        crate::overlay::ui::wording(Label::On, s) == "Вкл"@,
        crate::overlay::ui::wording(Label::Off, s) == "Выкл"@,
{
}

/// What is written: a label by its wording, a number in decimal, an unknown one as a mark,
/// a time in hours, minutes and seconds of two digits each; one with a fraction is left to
/// others.
pub proof fn law_words_are_written(
    label: Label,
    n: u64,
    hours: nat,
    minutes: nat,
    seconds: nat,
    s: Strings,
)
    requires
        minutes < 60,
        seconds < 60,
        hours * 3600 + minutes * 60 + seconds <= u64::MAX,
    ensures
        crate::overlay::ui::written(Words::Label(label), s) == Some(
            crate::overlay::ui::wording(label, s),
        ),
        crate::overlay::ui::written(Words::Number(n), s) == Some(
            crate::text::numeral(n as nat, 10, 1),
        ),
        crate::overlay::ui::written(Words::Unknown, s) == Some("?"@),
        crate::overlay::ui::written(
            Words::Clock((hours * 3600 + minutes * 60 + seconds) as u64),
            s,
        ) == Some(
            crate::text::numeral(hours, 10, 2) + ":"@ + crate::text::numeral(minutes, 10, 2) + ":"@
                + crate::text::numeral(seconds, 10, 2),
        ),
        forall|x: crate::single::Single| #[trigger]
            crate::overlay::ui::written(Words::Seconds(x), s) is None,
{
    let total = hours * 3600 + minutes * 60 + seconds;
    assert(total / 3600 == hours && total % 3600 == minutes * 60 + seconds);
    assert((minutes * 60 + seconds) / 60 == minutes);
    assert(total % 60 == seconds);
}

} // verus!
