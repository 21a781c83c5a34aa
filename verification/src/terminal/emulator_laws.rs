//! What holds of starting a terminal, of writing to it and of its end.
use vstd::prelude::*;
use vstd::string::*;
use vstd::utf8::*;

use crate::command::Platform;
use crate::terminal::emulator::{
    after_output, is_path, known_exit, law_paste_is_marked, may_exist_in, may_find_in,
    paste_actions, signed_status, startup_step, write_actions, written, PtyActionView,
    StartupActionView, StartupErrorView, StartupEvent,
};
use crate::text::decimal;

verus! {

// ---------------------------------------------------------------------------
// Starting
// ---------------------------------------------------------------------------

/// The devices that are opened have exactly the size that was asked for, and a size
/// that is refused is named in the message.
pub proof fn law_devices_have_the_size_asked_for(
    platform: Platform,
    cols: usize,
    rows: usize,
    shell: Option<Seq<char>>,
)
    ensures
        match startup_step(platform, cols, rows, shell, StartupEvent::Requested) {
            StartupActionView::OpenPty { rows: r, cols: c } => {
                &&& r as int == rows as int
                &&& c as int == cols as int
                &&& (cols == 80 && rows == 24) || (cols == 120 && rows == 40) || (cols == 160
                    && rows == 40) || (cols == 200 && rows == 50)
            },
            StartupActionView::Fail(e) => {
                &&& e == StartupErrorView::InvalidInput(
                    "Invalid terminal size "@ + decimal(cols as nat) + "x"@ + decimal(rows as nat)
                        + ". Allowed: 80x24, 120x40, 160x40, 200x50"@,
                )
                &&& !((cols == 80 && rows == 24) || (cols == 120 && rows == 40) || (cols == 160
                    && rows == 40) || (cols == 200 && rows == 50))
            },
            _ => false,
        },
{
}

/// A shell that was asked for is looked for and then started as it was named, or
/// refused by its name; where none was, the default one is started.
pub proof fn law_the_shell_asked_for_is_started(
    platform: Platform,
    cols: usize,
    rows: usize,
    shell: Seq<char>,
)
    ensures
        startup_step(platform, cols, rows, Some(shell), StartupEvent::PtyOpened)
            == StartupActionView::LookUpShell(shell),
        startup_step(platform, cols, rows, Some(shell), StartupEvent::ShellLookedUp(true)) matches
            StartupActionView::Spawn(command) && command.program == Some(shell),
        startup_step(platform, cols, rows, Some(shell), StartupEvent::ShellLookedUp(false))
            == StartupActionView::Fail(
            StartupErrorView::NotFound("Shell '"@ + shell + "' not found"@),
        ),
        startup_step(platform, cols, rows, None, StartupEvent::PtyOpened) matches
            StartupActionView::Spawn(command) && command.program == (if platform is Windows {
            Some("cmd.exe"@)
        } else {
            None
        }),
{
}

/// Whatever shell is started, it finds the same four variables.
pub proof fn law_shells_find_their_variables(
    platform: Platform,
    cols: usize,
    rows: usize,
    shell: Option<Seq<char>>,
    event: StartupEvent,
)
    ensures
        startup_step(platform, cols, rows, shell, event) matches StartupActionView::Spawn(command)
            ==> {
            &&& command.env.len() == 4
            &&& command.env[0] == ("TERM"@, "xterm-256color"@)
            &&& command.env[1] == ("COLORTERM"@, "truecolor"@)
            &&& command.env[2].0 == "PROMPT_EOL_MARK"@ && command.env[2].1.len() == 0
            &&& command.env[3].0 == "PROMPT_SP"@ && command.env[3].1.len() == 0
        },
{
}

/// A name is a path exactly where it holds a slash or a backslash.
pub proof fn law_paths_hold_a_slash(name: Seq<char>)
    ensures
        is_path(name) <==> exists|i: int|
            0 <= i < name.len() && ((#[trigger] name[i]) as int == 47 || name[i] as int == 92),
{
    if is_path(name) {
        let c = if name.contains('/') {
            '/'
        } else {
            '\\'
        };
        let i = choose|i: int| 0 <= i < name.len() && name[i] == c;
        assert(name[i] as int == 47 || name[i] as int == 92);
    } else {
        assert forall|i: int| 0 <= i < name.len() implies !((#[trigger] name[i]) as int == 47
            || name[i] as int == 92) by {
            if name[i] as int == 47 {
                assert(name[i] == '/');
                assert(name.contains('/'));
            }
            if name[i] as int == 92 {
                assert(name[i] == '\\');
                assert(name.contains('\\'));
            }
        }
    }
}

/// A shell counts as found where one of the directories has it, however many there
/// are, and as missing only where none has.
pub proof fn law_every_directory_is_searched<F: Fn(&str, &str) -> bool>(
    exists_in: F,
    dirs: Seq<String>,
    name: Seq<char>,
    i: int,
)
    requires
        0 <= i < dirs.len(),
    ensures
        may_exist_in(exists_in, dirs[i]@, name, true) ==> may_find_in(exists_in, dirs, name, true),
        may_find_in(exists_in, dirs, name, false) ==> may_exist_in(exists_in, dirs[i]@, name, false),
{
}

// ---------------------------------------------------------------------------
// Writing
// ---------------------------------------------------------------------------

/// Input is written in one piece, and handed on at once on Windows alone.
pub proof fn law_input_is_written_in_one_piece(platform: Platform, data: Seq<u8>)
    ensures
        write_actions(platform, data)[0] == PtyActionView::Write(data),
        platform is Windows ==> write_actions(platform, data).len() == 2 && write_actions(
            platform,
            data,
        )[1] == PtyActionView::Flush,
        !(platform is Windows) ==> write_actions(platform, data).len() == 1,
{
}

/// Pasted text stands between `ESC [ 200 ~` and `ESC [ 201 ~` exactly where the
/// application asked for that, byte for byte, and can be read back.
pub proof fn law_pasted_text_is_kept(platform: Platform, bracketed: bool, text: Seq<char>)
    ensures
        ({
            let sent = written(paste_actions(platform, bracketed, text));
            &&& bracketed ==> sent == seq![27u8, 91u8, 50u8, 48u8, 48u8, 126u8] + encode_utf8(text)
                + seq![27u8, 91u8, 50u8, 48u8, 49u8, 126u8]
            &&& !bracketed ==> sent == encode_utf8(text) && decode_utf8(sent) == text
        }),
{
    law_paste_is_marked(platform, bracketed, text);
    encode_utf8_decode_utf8(text);
}

/// What is written is what the writing actions hold, in their order.
pub proof fn law_written_bytes_add_up(actions: Seq<PtyActionView>, data: Seq<u8>)
    ensures
        written(actions.push(PtyActionView::Write(data))) == written(actions) + data,
        written(actions.push(PtyActionView::Flush)) == written(actions),
        written(Seq::<PtyActionView>::empty()) == Seq::<u8>::empty(),
{
    assert(actions.push(PtyActionView::Write(data)).drop_last() =~= actions);
    assert(actions.push(PtyActionView::Flush).drop_last() =~= actions);
}

// ---------------------------------------------------------------------------
// The end
// ---------------------------------------------------------------------------

/// An exit code has the bits of the exit status: it is the status, or less than it by
/// two to the power of 32.
pub proof fn law_exit_codes_keep_their_bits(status: u32)
    ensures
        signed_status(status) as int == status as int || signed_status(status) as int == status
            as int - 0x1_0000_0000,
        status < 0x8000_0000 ==> signed_status(status) as int == status as int,
{
}

/// An exit status is taken where none is known yet, and only then.
pub proof fn law_first_exit_counts(known: i32, status: u32)
    ensures
        known_exit(Some(known), Some(status)) == Some(known),
        known_exit(Some(known), None) == Some(known),
        known_exit(None, None) is None,
        known_exit(None, Some(status)) matches Some(code) && (code as int == status as int || code
            as int == status as int - 0x1_0000_0000),
{
}

/// A child runs on where its output has not ended and it has no exit status; a status
/// is taken where the output has not ended, and nothing else changes what is known.
pub proof fn law_output_tells_the_end(known: Option<i32>, status: u32)
    ensures
        after_output(known, true, None) == (true, known),
        after_output(known, false, None) == (false, known),
        after_output(known, false, Some(status)) == (false, known),
        !after_output(known, true, Some(status)).0,
        after_output(known, true, Some(status)).1 matches Some(code) && (code as int == status
            as int || code as int == status as int - 0x1_0000_0000),
{
}

} // verus!
