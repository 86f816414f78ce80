//! What the command line and the configuration prompt say, once the host
//! has read them.

use vstd::prelude::*;
use vstd::string::{StrSliceExecFns, StringExecFns};

verus! {

/// Why no program image could be had.
#[derive(Debug, Clone, Copy, PartialEq, Eq, Structural)]
pub enum RomError {
    /// No path was given.
    NoPath,
    /// The file at the path could not be read.
    NotFound,
}

impl RomError {
    /// The text to show for the error.
    pub fn message(&self) -> (text: &'static str)
        ensures
            *self == RomError::NoPath ==> text@ == "No path provided for ROM."@,
            *self == RomError::NotFound ==> text@ == "File not found."@,
    {
        match self {
            RomError::NoPath => "No path provided for ROM.",
            RomError::NotFound => "File not found.",
        }
    }
}

/// The path argument: the argument after the program's name, or the empty
/// text if there is none.
pub open spec fn path_arg(args: Seq<String>) -> Seq<char> {
    if args.len() > 1 {
        args[1]@
    } else {
        Seq::empty()
    }
}

/// The text without its line ending: a final line feed is taken off, and a
/// carriage return before it too.
pub open spec fn without_line_end(text: Seq<char>) -> Seq<char> {
    if text.len() > 0 && text.last() == '\n' {
        let line = text.drop_last();
        if line.len() > 0 && line.last() == '\r' {
            line.drop_last()
        } else {
            line
        }
    } else {
        text
    }
}

/// What an answer to a yes-or-no question says: `y` and `n`, in either
/// case, say yes and no; nothing else is an answer.
pub open spec fn answer_of(line: Seq<char>) -> Option<bool> {
    if line == seq!['y'] || line == seq!['Y'] {
        Some(true)
    } else if line == seq!['n'] || line == seq!['N'] {
        Some(false)
    } else {
        None
    }
}

/// The service that reads the command line.  It holds no state.
pub struct ArgsService;

impl ArgsService {
    /// A service.
    pub fn new() -> ArgsService {
        ArgsService
    }

    /// The path of the program image among the command-line arguments.
    pub fn find_path_arg(&self, args: &Vec<String>) -> (path: String)
        ensures
            path@ == path_arg(args@),
    {
        if args.len() > 1 {
            args[1].clone()
        } else {
            String::new()
        }
    }

    /// The program image, given what reading the file at `rom_path` gave:
    /// its bytes, or `None` if it could not be read.
    pub fn read_rom(&self, rom_path: &str, file_contents: Option<Vec<u8>>) -> (rom: Result<
        Vec<u8>,
        RomError,
    >)
        ensures
            rom_path@.len() == 0 ==> rom == Err::<Vec<u8>, RomError>(RomError::NoPath),
            rom_path@.len() > 0 && file_contents is None ==> rom == Err::<Vec<u8>, RomError>(
                RomError::NotFound,
            ),
            rom_path@.len() > 0 && file_contents is Some ==> rom == Ok::<Vec<u8>, RomError>(
                file_contents->0,
            ),
    {
        if rom_path.is_empty() {
            return Err(RomError::NoPath);
        }
        match file_contents {
            None => Err(RomError::NotFound),
            Some(bytes) => Ok(bytes),
        }
    }

    /// Whether the arguments ask for the configuration prompt: the second
    /// argument after the program's name is `--config`.
    pub fn find_config_arg(&self, args: &[String]) -> (found: bool)
        ensures
            found == (args@.len() >= 3 && args@[2]@ == "--config"@),
    {
        if args.len() >= 3 {
            let flag: String = String::from_str("--config");
            if args[2] == flag {
                return true;
            }
        }
        return false;
    }

    /// Takes the line ending off a line that was read.
    pub fn trim_crlf(&self, s: &mut String)
        ensures
            final(s)@ == without_line_end(old(s)@),
    {
        let length: usize = s.as_str().unicode_len();
        if length > 0 && s.as_str().get_char(length - 1) == '\n' {
            let end: usize = if length > 1 && s.as_str().get_char(length - 2) == '\r' {
                length - 2
            } else {
                length - 1
            };
            let line: String = String::from_str(s.as_str().substring_char(0, end));
            assert(line@ =~= without_line_end(s@));
            *s = line;
        }
    }

    /// What a line says in answer to a yes-or-no question of the
    /// configuration prompt; `None` if the question is to be asked again.
    pub fn config_answer(&self, line: &str) -> (answer: Option<bool>)
        ensures
            answer == answer_of(line@),
    {
        if line.unicode_len() != 1 {
            return None;
        }
        let letter: char = line.get_char(0);
        assert(line@ =~= seq![letter]);
        assert(seq!['y'][0] == 'y' && seq!['Y'][0] == 'Y' && seq!['n'][0] == 'n' && seq!['N'][0]
            == 'N');
        if letter == 'y' || letter == 'Y' {
            Some(true)
        } else if letter == 'n' || letter == 'N' {
            Some(false)
        } else {
            None
        }
    }
}

} // verus!
