//! Asset browser: size display and the decisions behind the file list.
use vstd::prelude::*;
use crate::app::{Callback, MacPakApp};
use crate::numeric::{f64_value, f64_value_of, round_half_even, round_half_even_u128};
use crate::text::{decimal, digit_char, digit_to_char, push_char, push_decimal};

verus! {

/// Index of the display unit for a byte count: 0 = B, 1 = KB, 2 = MB,
/// 3 = GB, 4 = TB, 5 = PB. A unit is used while the value stays below 1024.
pub open spec fn size_unit(bytes: nat) -> nat {
    if bytes < 1024 { 0 }
    else if bytes < 1048576 { 1 }
    else if bytes < 1073741824 { 2 }
    else if bytes < 1099511627776 { 3 }
    else if bytes < 1125899906842624 { 4 }
    else { 5 }
}

/// `1024^k` for the unit indices above.
pub open spec fn unit_divisor(k: nat) -> nat {
    if k == 0 { 1 }
    else if k == 1 { 1024 }
    else if k == 2 { 1048576 }
    else if k == 3 { 1073741824 }
    else if k == 4 { 1099511627776 }
    else { 1125899906842624 }
}

/// The name of unit `k`.
pub open spec fn unit_name(k: nat) -> Seq<char> {
    if k == 0 { seq!['B'] }
    else if k == 1 { seq!['K', 'B'] }
    else if k == 2 { seq!['M', 'B'] }
    else if k == 3 { seq!['G', 'B'] }
    else if k == 4 { seq!['T', 'B'] }
    else { seq!['P', 'B'] }
}

/// The size in tenths of the chosen unit, rounded as one-decimal float
/// formatting rounds: the `f64` value of the byte count divided by the unit,
/// to the nearest tenth, ties to even.
pub open spec fn size_tenths(bytes: nat) -> nat {
    round_half_even(10 * f64_value(bytes), unit_divisor(size_unit(bytes)))
}

/// The text of a byte count: the value with one decimal in the largest unit
/// that keeps it below 1024 (PB for everything larger), e.g. "1.5 KB".
pub open spec fn size_text(bytes: nat) -> Seq<char> {
    let t = size_tenths(bytes);
    decimal(t / 10) + seq!['.', digit_char(t % 10), ' '] + unit_name(size_unit(bytes))
}

/// A larger byte count is never shown in a smaller unit: the unit index
/// grows with the count, and the text of each count ends with the name of
/// its unit.
pub proof fn lemma_size_unit_monotone(a: nat, b: nat)
    requires
        a <= b,
    ensures
        size_unit(a) <= size_unit(b),
        ({
            let t = size_text(b);
            let u = unit_name(size_unit(b));
            t.len() >= u.len() && t.subrange(t.len() - u.len(), t.len() as int) == u
        }),
{
    let t = size_text(b);
    let u = unit_name(size_unit(b));
    let head = decimal(size_tenths(b) / 10) + seq!['.', digit_char(size_tenths(b) % 10), ' '];
    assert(t == head + u);
    assert(t.subrange(t.len() - u.len(), t.len() as int) =~= u);
}

/// Formats a file size for display ("0.0 B", "1.5 KB", "2.0 MB", ...).
pub fn format_size(bytes: u64) -> (s: String)
    ensures
        s@ == size_text(bytes as nat),
{
    let value = f64_value_of(bytes);
    let (k, div): (u32, u128) = if bytes < 1024 {
        (0, 1)
    } else if bytes < 1048576 {
        (1, 1024)
    } else if bytes < 1073741824 {
        (2, 1048576)
    } else if bytes < 1099511627776 {
        (3, 1073741824)
    } else if bytes < 1125899906842624 {
        (4, 1099511627776)
    } else {
        (5, 1125899906842624)
    };
    assert(k as nat == size_unit(bytes as nat));
    assert(div as nat == unit_divisor(k as nat));
    let tenths = round_half_even_u128(10 * value, div);
    let mut s = String::new();
    push_decimal(&mut s, tenths / 10);
    push_char(&mut s, '.');
    push_char(&mut s, digit_to_char((tenths % 10) as u64));
    push_char(&mut s, ' ');
    if k == 0 {
        push_char(&mut s, 'B');
    } else {
        let c = if k == 1 { 'K' } else if k == 2 { 'M' } else if k == 3 { 'G' } else if k == 4 { 'T' } else { 'P' };
        push_char(&mut s, c);
        push_char(&mut s, 'B');
    }
    assert(s@ =~= size_text(bytes as nat));
    s
}


/// The events the asset browser tab handles.
pub open spec fn tab_callbacks() -> Set<Callback> {
    set![
        Callback::BrowserOpenFolder,
        Callback::BrowserGoUp,
        Callback::BrowserGoToPath,
        Callback::BrowserRefresh,
        Callback::BrowserClearCache,
        Callback::BrowserFileDoubleClicked,
        Callback::BrowserFileSelected,
        Callback::BrowserSearchChanged,
        Callback::BrowserFilterChanged,
        Callback::BrowserToggleFilter,
        Callback::BrowserCopyPath,
        Callback::BrowserShowInFinder,
        Callback::BrowserOpenInEditor,
        Callback::BrowserQuickConvert,
        Callback::BrowserContextMenuAction,
    ]
}

/// Registers all Asset Browser tab callbacks on the application.
/// What each of these events decides is the matching method of
/// `state::browser::BrowserState`; reading the disk is the caller's part.
pub fn register_callbacks(app: &mut MacPakApp)
    requires
        old(app).wf(),
    ensures
        final(app).wf(),
        final(app).tab() == old(app).tab(),
        final(app).handled() == old(app).handled().union(tab_callbacks()),
{
    app.on(Callback::BrowserOpenFolder);
    app.on(Callback::BrowserGoUp);
    app.on(Callback::BrowserGoToPath);
    app.on(Callback::BrowserRefresh);
    app.on(Callback::BrowserClearCache);
    app.on(Callback::BrowserFileDoubleClicked);
    app.on(Callback::BrowserFileSelected);
    app.on(Callback::BrowserSearchChanged);
    app.on(Callback::BrowserFilterChanged);
    app.on(Callback::BrowserToggleFilter);
    app.on(Callback::BrowserCopyPath);
    app.on(Callback::BrowserShowInFinder);
    app.on(Callback::BrowserOpenInEditor);
    app.on(Callback::BrowserQuickConvert);
    app.on(Callback::BrowserContextMenuAction);
    assert(app.handled() =~= old(app).handled().union(tab_callbacks()));
}

} // verus!
