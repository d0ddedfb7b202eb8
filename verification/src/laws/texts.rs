//! Numbers, addresses and lines as they are read by people.

use vstd::prelude::*;

use crate::crash::{Exception, Marks, Thread};

verus! {

/// What a digit is worth.
pub open spec fn worth(c: char) -> int {
    if '0' <= c <= '9' {
        c as int - '0' as int
    } else if 'A' <= c <= 'F' {
        c as int - 'A' as int + 10
    } else {
        -1
    }
}

/// The number that digits spell.
pub open spec fn spelled(digits: Seq<char>, base: int) -> int
    decreases digits.len(),
{
    if digits.len() == 0 {
        0
    } else {
        spelled(digits.drop_last(), base) * base + worth(digits.last())
    }
}

proof fn lemma_worth(d: nat)
    requires
        d < 16,
    ensures
        worth(crate::text::digit(d)) == d,
{
}

/// A numeral spells its number, in digits of its base, has at least the digits that were
/// asked for, and no more zeroes in front than that takes.
pub proof fn law_numerals_spell_their_number(n: nat, base: nat, width: nat)
    requires
        2 <= base <= 16,
    ensures
        ({
            let s = crate::text::numeral(n, base, width);
            &&& spelled(s, base as int) == n
            &&& s.len() >= 1 && s.len() >= width
            &&& forall|i: int| 0 <= i < s.len() ==> 0 <= worth(#[trigger] s[i]) < base
            &&& s.len() > width && s.len() > 1 ==> worth(s[0]) != 0
        }),
    decreases n + width,
{
    let s = crate::text::numeral(n, base, width);
    if n < base && width <= 1 {
        lemma_worth(n);
        assert(s.drop_last() =~= Seq::<char>::empty());
        assert(spelled(s.drop_last(), base as int) == 0);
    } else {
        let rest = if width == 0 {
            0
        } else {
            (width - 1) as nat
        };
        assert(n / base <= n && (n > 0 ==> n / base < n)) by (nonlinear_arith)
            requires
                base >= 2,
        ;
        law_numerals_spell_their_number(n / base, base, rest);
        let front = crate::text::numeral(n / base, base, rest);
        vstd::arithmetic::div_mod::lemma_fundamental_div_mod(n as int, base as int);
        vstd::arithmetic::div_mod::lemma_mod_bound(n as int, base as int);
        lemma_worth(n % base);
        assert(s == front.push(crate::text::digit(n % base)));
        assert(s.drop_last() =~= front);
        assert((n / base) * base == base * (n / base)) by (nonlinear_arith);
        assert forall|i: int| 0 <= i < s.len() implies 0 <= worth(#[trigger] s[i]) < base by {
            if i < front.len() {
                assert(s[i] == front[i]);
            }
        }
        if s.len() > width && s.len() > 1 && front.len() == 1 {
            assert(s[0] == front[0]);
            if width <= 1 {
                assert(n / base >= 1) by (nonlinear_arith)
                    requires
                        n >= base,
                        base >= 2,
                ;
                assert(spelled(front, base as int) == worth(front[0])) by {
                    assert(front.drop_last() =~= Seq::<char>::empty());
                    assert(spelled(front.drop_last(), base as int) == 0);
                }
            }
        }
    }
}

/// A number with a sign is its digits, behind a minus where it is below zero.
pub proof fn law_signed_numbers(n: int)
    ensures
        n >= 0 ==> crate::text::signed(n) == crate::text::numeral(n as nat, 10, 1),
        n < 0 ==> crate::text::signed(n) == "-"@ + crate::text::numeral((-n) as nat, 10, 1),
        n >= 0 ==> crate::text::decimal(n as nat) == crate::text::numeral(n as nat, 10, 1),
{
    reveal_strlit("-");
    assert("-"@ =~= seq!['-']);
}

/// The name of a file is what stands behind the last separator of its path.
pub proof fn law_file_name_is_the_last_part(front: Seq<char>, separator: char, name: Seq<char>)
    requires
        separator == '\\',
        forall|i: int| 0 <= i < name.len() ==> #[trigger] name[i] != '\\',
    ensures
        crate::text::last_part(front + seq![separator] + name) == name,
        crate::text::last_part(name) == name,
{
    let path = front + seq![separator] + name;
    let at = front.len() as int + 1;
    assert forall|k: int| at <= k < path.len() implies #[trigger] path[k] != '\\' by {
        assert(path[k] == name[k - at]);
    }
    assert(path[at - 1] == '\\');
    lemma_behind(path, path.len() as int, at);
    assert(path.skip(at) =~= name);
    lemma_behind(name, name.len() as int, 0);
    assert(name.skip(0) =~= name);
}

proof fn lemma_behind(path: Seq<char>, end: int, at: int)
    requires
        0 <= at <= end <= path.len(),
        at > 0 ==> path[at - 1] == '\\',
        forall|k: int| at <= k < end ==> #[trigger] path[k] != '\\',
    ensures
        crate::text::behind_last(path, '\\', end) == at,
    decreases end,
{
    if at < end {
        lemma_behind(path, end - 1, at);
    }
}

/// Whether every character is a blank or another white space.
pub open spec fn blank(s: Seq<char>) -> bool {
    forall|i: int|
        0 <= i < s.len() ==> (#[trigger] s[i]) == ' ' || s[i] == '\t' || s[i] == '\n' || s[i]
            == '\r'
}

/// The name of an assembly is what stands before the first comma, without the blanks
/// around it, and the case of its letters does not matter.
pub proof fn law_assembly_is_told_by_its_name(
    before: Seq<char>,
    name: Seq<char>,
    after: Seq<char>,
    rest: Seq<char>,
    simple: Seq<char>,
)
    requires
        blank(before),
        blank(after),
        name.len() > 0,
        'A' <= name[0] <= 'z',
        'A' <= name.last() <= 'z',
        forall|i: int| 0 <= i < name.len() ==> #[trigger] name[i] != ',',
    ensures
        crate::text::leads(before + name + after + seq![','] + rest, simple) <==> (simple.len()
            == name.len() && forall|i: int|
            0 <= i < name.len() ==> lower(#[trigger] name[i]) == lower(simple[i])),
{
    let full = before + name + after + seq![','] + rest;
    let head = before + name + after;
    assert forall|k: int| 0 <= k < head.len() implies #[trigger] full[k] != ',' by {
        assert(full[k] == head[k]);
        if k < before.len() {
            assert(head[k] == before[k]);
        } else if k < before.len() + name.len() {
            assert(head[k] == name[k - before.len()]);
        } else {
            assert(head[k] == after[k - before.len() - name.len()]);
        }
    }
    assert(full[head.len() as int] == ',');
    lemma_find(full, 0, head.len() as int);
    assert(full.take(head.len() as int) =~= head);
    lemma_trim_start(before, name + after);
    assert(head =~= before + (name + after));
    assert((name + after)[0] == name[0]);
    lemma_trim_end(name, after);
}

/// A letter of the ASCII alphabet in its lower case.
pub open spec fn lower(c: char) -> int {
    if 'A' <= c <= 'Z' {
        c as int - 'A' as int + 'a' as int
    } else {
        c as int
    }
}

proof fn lemma_find(s: Seq<char>, from: int, at: int)
    requires
        0 <= from <= at < s.len(),
        s[at] == ',',
        forall|k: int| from <= k < at ==> #[trigger] s[k] != ',',
    ensures
        crate::text::find(s, ',', from) == at,
    decreases at - from,
{
    if from < at {
        lemma_find(s, from + 1, at);
    }
}

proof fn lemma_trim_start(before: Seq<char>, rest: Seq<char>)
    requires
        blank(before),
        rest.len() > 0,
        'A' <= rest[0] <= 'z',
    ensures
        crate::text::trim_start(before + rest) == rest,
    decreases before.len(),
{
    if before.len() > 0 {
        assert((before + rest)[0] == before[0]);
        assert((before + rest).drop_first() =~= before.drop_first() + rest);
        lemma_trim_start(before.drop_first(), rest);
    } else {
        assert(before + rest =~= rest);
    }
}

proof fn lemma_trim_end(name: Seq<char>, after: Seq<char>)
    requires
        blank(after),
        name.len() > 0,
        'A' <= name.last() <= 'z',
    ensures
        crate::text::trim_end(name + after) == name,
    decreases after.len(),
{
    if after.len() > 0 {
        assert((name + after).last() == after.last());
        assert((name + after).drop_last() =~= name + after.drop_last());
        lemma_trim_end(name, after.drop_last());
    } else {
        assert(name + after =~= name);
    }
}

// ---------------------------------------------------------------------------
// Crashes
// ---------------------------------------------------------------------------

/// What kills the game: a refused access, a full stack, an illegal instruction. Nothing
/// else is written down.
pub proof fn law_what_kills(code: u32)
    ensures
        crate::crash::fatal(code) <==> code == 0xC000_0005 || code == 0xC000_00FD || code
            == 0xC000_001D,
{
}

/// The line on a crash names its code, its address, its module, for a refused access what
/// was tried and where, and what the two threads were about.
pub proof fn law_crash_is_told(e: Exception, module: Seq<char>, marks: Marks)
    ensures
        ({
            let head = "ПАДЕНИЕ: код "@ + ("0x"@ + crate::text::numeral(e.code as nat, 16, 8))
                + " по адресу "@ + ("0x"@ + crate::text::numeral(e.address as nat, 16, 8))
                + " в "@ + module;
            let tail = " | игровой поток: "@ + crate::crash::named(marks.game) + ", рабочий: "@
                + crate::crash::named(marks.worker);
            let kind = if e.kind == 0 {
                "чтение"@
            } else if e.kind == 1 {
                "запись"@
            } else if e.kind == 8 {
                "исполнение"@
            } else {
                "доступ"@
            };
            let line = crate::crash::report_line(e, module, marks);
            &&& e.code == 0xC000_0005 && e.parameters >= 2 ==> line == head + (", "@ + kind
                + " по "@ + ("0x"@ + crate::text::numeral(e.target as nat, 16, 8))) + tail
            &&& !(e.code == 0xC000_0005 && e.parameters >= 2) ==> line == head + tail
        }),
{
    let head = "ПАДЕНИЕ: код "@ + ("0x"@ + crate::text::numeral(e.code as nat, 16, 8))
        + " по адресу "@ + ("0x"@ + crate::text::numeral(e.address as nat, 16, 8)) + " в "@
        + module;
    let tail = " | игровой поток: "@ + crate::crash::named(marks.game) + ", рабочий: "@
        + crate::crash::named(marks.worker);
    let detail = crate::crash::detail(e);
    assert(crate::crash::report_line(e, module, marks) =~= head + detail + tail);
    assert(head + Seq::<char>::empty() =~= head);
}

/// Every step has its own name.
pub proof fn law_steps_have_their_names()
    ensures
        crate::crash::named(crate::crash::STEP_NONE) == "ничего"@,
        crate::crash::named(crate::crash::STEP_CLICK) == "нажатие"@,
        crate::crash::named(crate::crash::STEP_QUICK_STACK) == "раскладка по сундукам"@,
        crate::crash::named(crate::crash::STEP_CHAT) == "строка в чат"@,
        crate::crash::named(crate::crash::STEP_ITEM_TOOLTIP) == "подсказка предмета"@,
        crate::crash::named(crate::crash::STEP_TEXT_TOOLTIP) == "текстовая подсказка"@,
        crate::crash::named(crate::crash::STEP_SEARCH_TEXT) == "набор в строке поиска"@,
        crate::crash::named(crate::crash::STEP_BOBBER) == "чтение поплавка"@,
        crate::crash::named(crate::crash::STEP_STOCK) == "наживка и ячейки"@,
        crate::crash::named(crate::crash::STEP_POTIONS) == "зелья"@,
        crate::crash::named(crate::crash::STEP_ROD) == "удочка в руке"@,
        crate::crash::named(crate::crash::STEP_LANG) == "язык игры"@,
        crate::crash::named(crate::crash::STEP_SOUND) == "звук квестовой рыбы"@,
{
}

/// A thread that begins a step is marked with it, and the other keeps its mark.
pub proof fn law_marks_of_the_threads(marks: Marks, step: u8)
    ensures
        marks.with(Thread::Game, step).game == step,
        marks.with(Thread::Game, step).worker == marks.worker,
        marks.with(Thread::Worker, step).worker == step,
        marks.with(Thread::Worker, step).game == marks.game,
{
}

} // verus!
