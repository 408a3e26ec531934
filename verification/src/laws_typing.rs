//! What typing and deleting make of the text of a palette.

use crate::palette::{CommandPaletteMode, PaletteView, RenameTarget};
use crate::text;
use vstd::prelude::*;

verus! {

/// The bytes of two texts that follow each other are those of the one and then those of the other.
proof fn lemma_joined_bytes(first: Seq<char>, second: Seq<char>)
    ensures
        vstd::utf8::encode_utf8(first + second) == vstd::utf8::encode_utf8(first)
            + vstd::utf8::encode_utf8(second),
    decreases first.len(),
{
    if first.len() == 0 {
        assert(first + second =~= second);
        assert(vstd::utf8::encode_utf8(first) + vstd::utf8::encode_utf8(second)
            =~= vstd::utf8::encode_utf8(second));
    } else {
        lemma_joined_bytes(first.drop_first(), second);
        assert((first + second).drop_first() =~= first.drop_first() + second);
        assert(vstd::utf8::encode_utf8(first + second) =~= vstd::utf8::encode_utf8(first)
            + vstd::utf8::encode_utf8(second));
    }
}

proof fn lemma_spliced(
    palette: PaletteView,
    before: Seq<char>,
    chosen: Seq<char>,
    after: Seq<char>,
    replacement: Seq<char>,
)
    requires
        palette.text == before + chosen + after,
        palette.selection_location == text::byte_len(before),
        palette.selection_length == text::byte_len(chosen),
    ensures
        palette.spliced(replacement) == before + replacement + after,
{
    let head = vstd::utf8::encode_utf8(before);
    let middle = vstd::utf8::encode_utf8(chosen);
    let tail = vstd::utf8::encode_utf8(after);
    let bytes = vstd::utf8::encode_utf8(palette.text);
    lemma_joined_bytes(before + chosen, after);
    lemma_joined_bytes(before, chosen);
    assert(bytes == head + middle + tail);
    assert(palette.selection_start() == head.len());
    assert(palette.selection_end() == head.len() + middle.len());
    assert(bytes.subrange(0, head.len() as int) =~= head);
    assert(bytes.subrange((head.len() + middle.len()) as int, bytes.len() as int) =~= tail);
    vstd::utf8::encode_utf8_decode_utf8(before);
    vstd::utf8::encode_utf8_decode_utf8(after);
}

/// Whether a palette shows and looks for a text, with the place for typing at its end, and is
/// otherwise as it was.
pub open spec fn has_text(before: PaletteView, after: PaletteView, content: Seq<char>) -> bool {
    &&& after.text == content
    &&& after.query == content
    &&& after.selection_length == 0
    &&& text::byte_len(content) <= usize::MAX ==> after.selection_location == text::byte_len(
        content,
    )
    &&& after.selected_index == 0
    &&& after.visible == before.visible
    &&& after.mode == before.mode
    &&& after.rename_target == before.rename_target
}

/// A text that is typed takes the place of the selected part, and deleting takes that part out;
/// what stands before and behind it stays.
pub proof fn law_selected_part_is_replaced(
    palette: PaletteView,
    before: Seq<char>,
    chosen: Seq<char>,
    after: Seq<char>,
    replacement: Seq<char>,
)
    requires
        palette.text == before + chosen + after,
        palette.selection_location == text::byte_len(before),
        palette.selection_length == text::byte_len(chosen),
        palette.selection_length > 0,
    ensures
        has_text(palette, palette.typed(replacement), before + replacement + after),
        has_text(palette, palette.erased(), before + after),
{
    lemma_spliced(palette, before, chosen, after, replacement);
    lemma_spliced(palette, before, chosen, after, Seq::empty());
    assert(before + Seq::<char>::empty() + after =~= before + after);
}

/// Where nothing is selected, a text that is typed is added at the end.
pub proof fn law_typing_goes_to_the_end(palette: PaletteView, content: Seq<char>)
    requires
        palette.selection_length == 0,
    ensures
        has_text(palette, palette.typed(content), palette.text + content),
{
}

/// Deleting takes back the last character that was typed.
pub proof fn law_deleting_takes_back(palette: PaletteView, content: Seq<char>, last: char)
    requires
        palette.selection_length == 0,
    ensures
        has_text(palette, palette.typed(content.push(last)).erased(), palette.text + content),
        palette.text.len() == 0 ==> has_text(palette, palette.erased(), Seq::empty()),
{
    let full = palette.text + content.push(last);
    assert(full.drop_last() =~= palette.text + content);
    assert(palette.text.len() == 0 ==> palette.text =~= Seq::<char>::empty());
}

/// With the whole text selected, what is typed is all that is left, and deleting leaves nothing.
pub proof fn law_whole_text_is_replaced(palette: PaletteView, content: Seq<char>)
    requires
        0 < text::byte_len(palette.text) <= usize::MAX,
    ensures
        palette.all_selected().text == palette.text,
        has_text(palette, palette.all_selected().typed(content), content),
        has_text(palette, palette.all_selected().erased(), Seq::empty()),
{
    let none = Seq::<char>::empty();
    let all = palette.all_selected();
    assert(none + palette.text + none =~= palette.text);
    assert(vstd::utf8::encode_utf8(none).len() == 0);
    law_selected_part_is_replaced(all, none, palette.text, none, content);
    assert(none + content + none =~= content);
    assert(none + none =~= none);
}

/// A palette that is opened is on screen with its first row selected and nothing being renamed; it
/// looks among the commands for what follows the mark, or among the terminals for what is typed.
pub proof fn law_opened_palette_is_ready(palette: PaletteView, content: Seq<char>)
    ensures
        ({
            let commands = palette.opened(CommandPaletteMode::Commands);
            let switcher = palette.opened(CommandPaletteMode::Switcher);
            &&& commands.visible && switcher.visible
            &&& commands.mode == CommandPaletteMode::Commands
            &&& switcher.mode == CommandPaletteMode::Switcher
            &&& commands.selected_index == 0 && switcher.selected_index == 0
            &&& commands.rename_target is None && switcher.rename_target is None
            &&& has_text(commands, commands.typed(content), ">"@ + content)
            &&& has_text(switcher, switcher.typed(content), content)
            &&& !commands.closed().visible
            &&& commands.closed().text == commands.text
        }),
{
    assert(Seq::<char>::empty() + content =~= content);
}

/// Renaming starts with the old name. With the name selected, what is typed is the new name;
/// otherwise it is added to the old one.
pub proof fn law_renaming_starts_with_the_name(
    palette: PaletteView,
    target: RenameTarget,
    name: Seq<char>,
    content: Seq<char>,
)
    requires
        0 < text::byte_len(name) <= usize::MAX,
    ensures
        ({
            let chosen = palette.renaming(target, name, true);
            let behind = palette.renaming(target, name, false);
            &&& chosen.visible && behind.visible
            &&& chosen.text == name && behind.text == name
            &&& chosen.rename_target == Some(target) && behind.rename_target == Some(target)
            &&& has_text(chosen, chosen.typed(content), content)
            &&& has_text(behind, behind.typed(content), name + content)
        }),
{
    let none = Seq::<char>::empty();
    let chosen = palette.renaming(target, name, true);
    if name.len() == 0 {
        assert(vstd::utf8::encode_utf8(name).len() == 0);
    }
    assert(none + name + none =~= name);
    assert(vstd::utf8::encode_utf8(none).len() == 0);
    law_selected_part_is_replaced(chosen, none, name, none, content);
    assert(none + content + none =~= content);
}

} // verus!
