//! What the hosted operations hand back to the guest.
//!
//! A hosted operation asks the platform for something and encodes the answer.
//! The functions here are the second half: each takes what the platform
//! returned and builds the value that goes into the guest's return slot.

use crate::abi::{PathType, RocSingleTagWrapper, RocTry};
use crate::layout::{bytes_less, lemma_ascii_text_less, lemma_bytes_less_transitive};
use crate::roc_io_error::IOErr;
use vstd::prelude::*;
use vstd::utf8::encode_utf8;

verus! {

/// The error of a hosted operation: an [`IOErr`] inside the tag union of one
/// variant that the guest declares for it (`DirErr`, `FileErr`, `PathErr`).
pub type HostedErr = RocSingleTagWrapper<IOErr>;

/// Whether `r` encodes what the platform returned: the payload of a success
/// as it is, and a failure as the error that reports it.
pub open spec fn encodes_io_result<T>(
    r: RocTry<T, HostedErr>,
    result: Result<T, std::io::Error>,
) -> bool {
    match result {
        Ok(value) => r@ == Ok::<T, HostedErr>(value),
        Err(error) => r@ matches Err(wrapped) && wrapped@.reports(&error),
    }
}

/// Encodes what the platform returned for a fallible operation.
pub fn try_from_io<T>(result: Result<T, std::io::Error>) -> (r: RocTry<T, HostedErr>)
    ensures
        encodes_io_result(r, result),
{
    match result {
        Ok(value) => RocTry::ok(value),
        Err(error) => RocTry::err(RocSingleTagWrapper::new(IOErr::from_io_error(&error))),
    }
}

/// The names that a directory listing yields: those of the entries that
/// could be read, in their order.
pub open spec fn readable_entries(entries: Seq<Result<String, std::io::Error>>) -> Seq<String>
    decreases entries.len(),
{
    if entries.len() == 0 {
        Seq::empty()
    } else {
        let rest = readable_entries(entries.drop_last());
        match entries.last() {
            Ok(name) => rest.push(name),
            Err(_) => rest,
        }
    }
}

/// Encodes a directory listing. An entry that could not be read is left out;
/// only a directory that could not be opened is a failure.
pub fn dir_list_result(
    listing: Result<Vec<Result<String, std::io::Error>>, std::io::Error>,
) -> (r: RocTry<Vec<String>, HostedErr>)
    ensures
        match listing {
            Ok(entries) => r@ matches Ok(names) && names@ == readable_entries(entries@),
            Err(error) => r@ matches Err(wrapped) && wrapped@.reports(&error),
        },
{
    match listing {
        Ok(entries) => {
            let mut names: Vec<String> = Vec::new();
            let mut i: usize = 0;
            while i < entries.len()
                invariant
                    i <= entries.len(),
                    names@ == readable_entries(entries@.subrange(0, i as int)),
                decreases entries.len() - i,
            {
                proof {
                    assert(entries@.subrange(0, i + 1).drop_last() =~= entries@.subrange(
                        0,
                        i as int,
                    ));
                }
                match &entries[i] {
                    Ok(name) => {
                        names.push(name.clone());
                    },
                    Err(_) => {},
                }
                i = i + 1;
            }
            proof {
                assert(entries@.subrange(0, entries.len() as int) =~= entries@);
            }
            RocTry::ok(names)
        },
        Err(error) => RocTry::err(RocSingleTagWrapper::new(IOErr::from_io_error(&error))),
    }
}

/// What the platform says of a path, without following a symbolic link.
#[derive(Clone, Copy, PartialEq, Eq, Structural, Debug)]
pub struct PathFacts {
    pub is_dir: bool,
    pub is_file: bool,
    pub is_symlink: bool,
}

/// Encodes the answer to "is this path a directory".
pub fn path_is_dir_result(facts: Result<PathFacts, std::io::Error>) -> (r: RocTry<bool, HostedErr>)
    ensures
        match facts {
            Ok(found) => r@ == Ok::<bool, HostedErr>(found.is_dir),
            Err(error) => r@ matches Err(wrapped) && wrapped@.reports(&error),
        },
{
    match facts {
        Ok(found) => RocTry::ok(found.is_dir),
        Err(error) => try_from_io(Err(error)),
    }
}

/// Encodes the answer to "is this path a file".
pub fn path_is_file_result(facts: Result<PathFacts, std::io::Error>) -> (r: RocTry<bool, HostedErr>)
    ensures
        match facts {
            Ok(found) => r@ == Ok::<bool, HostedErr>(found.is_file),
            Err(error) => r@ matches Err(wrapped) && wrapped@.reports(&error),
        },
{
    match facts {
        Ok(found) => RocTry::ok(found.is_file),
        Err(error) => try_from_io(Err(error)),
    }
}

/// Encodes the answer to "is this path a symbolic link".
pub fn path_is_sym_link_result(facts: Result<PathFacts, std::io::Error>) -> (r: RocTry<
    bool,
    HostedErr,
>)
    ensures
        match facts {
            Ok(found) => r@ == Ok::<bool, HostedErr>(found.is_symlink),
            Err(error) => r@ matches Err(wrapped) && wrapped@.reports(&error),
        },
{
    match facts {
        Ok(found) => RocTry::ok(found.is_symlink),
        Err(error) => try_from_io(Err(error)),
    }
}

/// Encodes the answer to "what does this path name".
pub fn path_type_result(facts: Result<PathFacts, std::io::Error>) -> (r: RocTry<
    PathType,
    HostedErr,
>)
    ensures
        match facts {
            Ok(found) => r@ == Ok::<PathType, HostedErr>(
                PathType::classify(found.is_symlink, found.is_dir),
            ),
            Err(error) => r@ matches Err(wrapped) && wrapped@.reports(&error),
        },
{
    match facts {
        Ok(found) => RocTry::ok(PathType::classify(found.is_symlink, found.is_dir)),
        Err(error) => try_from_io(Err(error)),
    }
}

/// The text that an infallible lookup hands to the guest: what was found, or
/// the empty text where nothing was.
pub fn text_or_empty(found: Option<String>) -> (text: String)
    ensures
        text@ == match found {
            Some(value) => value@,
            None => Seq::<char>::empty(),
        },
{
    match found {
        Some(value) => value,
        None => String::new(),
    }
}

/// A line without the newline characters at its end.
pub open spec fn without_trailing_newlines(line: Seq<char>) -> Seq<char>
    decreases line.len(),
{
    if line.len() > 0 && line.last() == '\n' {
        without_trailing_newlines(line.drop_last())
    } else {
        line
    }
}

/// The line that was read from the console, without the newline characters
/// at its end.
pub fn strip_line_end(line: &str) -> (text: &str)
    ensures
        text@ == without_trailing_newlines(line@),
{
    let mut end: usize = line.unicode_len();
    proof {
        assert(line@.subrange(0, end as int) =~= line@);
    }
    while end > 0 && line.get_char(end - 1) == '\n'
        invariant
            end <= line@.len(),
            without_trailing_newlines(line@) == without_trailing_newlines(
                line@.subrange(0, end as int),
            ),
        decreases end,
    {
        proof {
            assert(line@.subrange(0, end as int).drop_last() =~= line@.subrange(0, end - 1));
        }
        end = end - 1;
    }
    line.substring_char(0, end)
}

/// The number of hosted operations.
pub const HOSTED_FN_COUNT: usize = 22;

/// The hosted operations, in the order of the dispatch table: the
/// alphabetical order of their qualified names, which is the order in which
/// the guest numbers them.
#[derive(Clone, Copy, PartialEq, Eq, Structural, Debug)]
pub enum HostedOp {
    DirCreate,
    DirCreateAll,
    DirDeleteAll,
    DirDeleteEmpty,
    DirList,
    EnvCwd,
    EnvExePath,
    EnvVar,
    FileDelete,
    FileReadBytes,
    FileReadUtf8,
    FileWriteBytes,
    FileWriteUtf8,
    PathIsDir,
    PathIsFile,
    PathIsSymLink,
    PathType,
    StderrLine,
    StderrWrite,
    StdinLine,
    StdoutLine,
    StdoutWrite,
}

impl HostedOp {
    /// The position of the operation in the dispatch table.
    pub open spec fn index_spec(&self) -> usize {
        match self {
            HostedOp::DirCreate => 0,
            HostedOp::DirCreateAll => 1,
            HostedOp::DirDeleteAll => 2,
            HostedOp::DirDeleteEmpty => 3,
            HostedOp::DirList => 4,
            HostedOp::EnvCwd => 5,
            HostedOp::EnvExePath => 6,
            HostedOp::EnvVar => 7,
            HostedOp::FileDelete => 8,
            HostedOp::FileReadBytes => 9,
            HostedOp::FileReadUtf8 => 10,
            HostedOp::FileWriteBytes => 11,
            HostedOp::FileWriteUtf8 => 12,
            HostedOp::PathIsDir => 13,
            HostedOp::PathIsFile => 14,
            HostedOp::PathIsSymLink => 15,
            HostedOp::PathType => 16,
            HostedOp::StderrLine => 17,
            HostedOp::StderrWrite => 18,
            HostedOp::StdinLine => 19,
            HostedOp::StdoutLine => 20,
            HostedOp::StdoutWrite => 21,
        }
    }

    /// The position of the operation in the dispatch table.
    #[verifier::when_used_as_spec(index_spec)]
    pub fn index(&self) -> (index: usize)
        ensures
            index == self.index_spec(),
            index < HOSTED_FN_COUNT,
    {
        match self {
            HostedOp::DirCreate => 0,
            HostedOp::DirCreateAll => 1,
            HostedOp::DirDeleteAll => 2,
            HostedOp::DirDeleteEmpty => 3,
            HostedOp::DirList => 4,
            HostedOp::EnvCwd => 5,
            HostedOp::EnvExePath => 6,
            HostedOp::EnvVar => 7,
            HostedOp::FileDelete => 8,
            HostedOp::FileReadBytes => 9,
            HostedOp::FileReadUtf8 => 10,
            HostedOp::FileWriteBytes => 11,
            HostedOp::FileWriteUtf8 => 12,
            HostedOp::PathIsDir => 13,
            HostedOp::PathIsFile => 14,
            HostedOp::PathIsSymLink => 15,
            HostedOp::PathType => 16,
            HostedOp::StderrLine => 17,
            HostedOp::StderrWrite => 18,
            HostedOp::StdinLine => 19,
            HostedOp::StdoutLine => 20,
            HostedOp::StdoutWrite => 21,
        }
    }

    /// The operation at a position of the dispatch table, or `None` where
    /// the table has no such position.
    pub fn from_index(index: usize) -> (op: Option<HostedOp>)
        ensures
            op == (if index < HOSTED_FN_COUNT {
                Some(Self::at(index as int))
            } else {
                None
            }),
            op matches Some(found) ==> found.index() == index,
    {
        match index {
            0 => Some(HostedOp::DirCreate),
            1 => Some(HostedOp::DirCreateAll),
            2 => Some(HostedOp::DirDeleteAll),
            3 => Some(HostedOp::DirDeleteEmpty),
            4 => Some(HostedOp::DirList),
            5 => Some(HostedOp::EnvCwd),
            6 => Some(HostedOp::EnvExePath),
            7 => Some(HostedOp::EnvVar),
            8 => Some(HostedOp::FileDelete),
            9 => Some(HostedOp::FileReadBytes),
            10 => Some(HostedOp::FileReadUtf8),
            11 => Some(HostedOp::FileWriteBytes),
            12 => Some(HostedOp::FileWriteUtf8),
            13 => Some(HostedOp::PathIsDir),
            14 => Some(HostedOp::PathIsFile),
            15 => Some(HostedOp::PathIsSymLink),
            16 => Some(HostedOp::PathType),
            17 => Some(HostedOp::StderrLine),
            18 => Some(HostedOp::StderrWrite),
            19 => Some(HostedOp::StdinLine),
            20 => Some(HostedOp::StdoutLine),
            21 => Some(HostedOp::StdoutWrite),
            _ => None,
        }
    }

    /// Every operation stands in the table at its index, and nowhere else.
    pub proof fn lemma_index_round_trip(op: HostedOp, index: int)
        ensures
            Self::at(op.index() as int) == op,
            0 <= index < HOSTED_FN_COUNT ==> Self::at(index).index() == index,
    {
    }

    /// The operation at a position of the dispatch table.
    pub open spec fn at(index: int) -> HostedOp {
        if index == 0 {
            HostedOp::DirCreate
        } else if index == 1 {
            HostedOp::DirCreateAll
        } else if index == 2 {
            HostedOp::DirDeleteAll
        } else if index == 3 {
            HostedOp::DirDeleteEmpty
        } else if index == 4 {
            HostedOp::DirList
        } else if index == 5 {
            HostedOp::EnvCwd
        } else if index == 6 {
            HostedOp::EnvExePath
        } else if index == 7 {
            HostedOp::EnvVar
        } else if index == 8 {
            HostedOp::FileDelete
        } else if index == 9 {
            HostedOp::FileReadBytes
        } else if index == 10 {
            HostedOp::FileReadUtf8
        } else if index == 11 {
            HostedOp::FileWriteBytes
        } else if index == 12 {
            HostedOp::FileWriteUtf8
        } else if index == 13 {
            HostedOp::PathIsDir
        } else if index == 14 {
            HostedOp::PathIsFile
        } else if index == 15 {
            HostedOp::PathIsSymLink
        } else if index == 16 {
            HostedOp::PathType
        } else if index == 17 {
            HostedOp::StderrLine
        } else if index == 18 {
            HostedOp::StderrWrite
        } else if index == 19 {
            HostedOp::StdinLine
        } else if index == 20 {
            HostedOp::StdoutLine
        } else {
            HostedOp::StdoutWrite
        }
    }

    /// The qualified name of the operation, as the guest spells it.
    pub open spec fn name_text(&self) -> Seq<char> {
        match self {
            HostedOp::DirCreate => "Dir.create!"@,
            HostedOp::DirCreateAll => "Dir.create_all!"@,
            HostedOp::DirDeleteAll => "Dir.delete_all!"@,
            HostedOp::DirDeleteEmpty => "Dir.delete_empty!"@,
            HostedOp::DirList => "Dir.list!"@,
            HostedOp::EnvCwd => "Env.cwd!"@,
            HostedOp::EnvExePath => "Env.exe_path!"@,
            HostedOp::EnvVar => "Env.var!"@,
            HostedOp::FileDelete => "File.delete!"@,
            HostedOp::FileReadBytes => "File.read_bytes!"@,
            HostedOp::FileReadUtf8 => "File.read_utf8!"@,
            HostedOp::FileWriteBytes => "File.write_bytes!"@,
            HostedOp::FileWriteUtf8 => "File.write_utf8!"@,
            HostedOp::PathIsDir => "Path.is_dir!"@,
            HostedOp::PathIsFile => "Path.is_file!"@,
            HostedOp::PathIsSymLink => "Path.is_sym_link!"@,
            HostedOp::PathType => "Path.type!"@,
            HostedOp::StderrLine => "Stderr.line!"@,
            HostedOp::StderrWrite => "Stderr.write!"@,
            HostedOp::StdinLine => "Stdin.line!"@,
            HostedOp::StdoutLine => "Stdout.line!"@,
            HostedOp::StdoutWrite => "Stdout.write!"@,
        }
    }

    /// The qualified name of the operation, as the guest spells it.
    pub fn qualified_name(&self) -> (name: &'static str)
        ensures
            name@ == self.name_text(),
    {
        match self {
            HostedOp::DirCreate => "Dir.create!",
            HostedOp::DirCreateAll => "Dir.create_all!",
            HostedOp::DirDeleteAll => "Dir.delete_all!",
            HostedOp::DirDeleteEmpty => "Dir.delete_empty!",
            HostedOp::DirList => "Dir.list!",
            HostedOp::EnvCwd => "Env.cwd!",
            HostedOp::EnvExePath => "Env.exe_path!",
            HostedOp::EnvVar => "Env.var!",
            HostedOp::FileDelete => "File.delete!",
            HostedOp::FileReadBytes => "File.read_bytes!",
            HostedOp::FileReadUtf8 => "File.read_utf8!",
            HostedOp::FileWriteBytes => "File.write_bytes!",
            HostedOp::FileWriteUtf8 => "File.write_utf8!",
            HostedOp::PathIsDir => "Path.is_dir!",
            HostedOp::PathIsFile => "Path.is_file!",
            HostedOp::PathIsSymLink => "Path.is_sym_link!",
            HostedOp::PathType => "Path.type!",
            HostedOp::StderrLine => "Stderr.line!",
            HostedOp::StderrWrite => "Stderr.write!",
            HostedOp::StdinLine => "Stdin.line!",
            HostedOp::StdoutLine => "Stdout.line!",
            HostedOp::StdoutWrite => "Stdout.write!",
        }
    }

    /// Whether the name of `self` comes before the name of `other` in the
    /// alphabet.
    pub open spec fn name_comes_before(&self, other: HostedOp) -> bool {
        bytes_less(encode_utf8(self.name_text()), encode_utf8(other.name_text()))
    }

    proof fn lemma_name_comes_before_next(index: int)
        requires
            0 <= index < HOSTED_FN_COUNT - 1,
        ensures
            Self::at(index).name_comes_before(Self::at(index + 1)),
    {
        if index == 0 {
            reveal_strlit("Dir.create!");
            reveal_strlit("Dir.create_all!");
            lemma_ascii_text_less("Dir.create!"@, "Dir.create_all!"@, 10);
        } else if index == 1 {
            reveal_strlit("Dir.create_all!");
            reveal_strlit("Dir.delete_all!");
            lemma_ascii_text_less("Dir.create_all!"@, "Dir.delete_all!"@, 4);
        } else if index == 2 {
            reveal_strlit("Dir.delete_all!");
            reveal_strlit("Dir.delete_empty!");
            lemma_ascii_text_less("Dir.delete_all!"@, "Dir.delete_empty!"@, 11);
        } else if index == 3 {
            reveal_strlit("Dir.delete_empty!");
            reveal_strlit("Dir.list!");
            lemma_ascii_text_less("Dir.delete_empty!"@, "Dir.list!"@, 4);
        } else if index == 4 {
            reveal_strlit("Dir.list!");
            reveal_strlit("Env.cwd!");
            lemma_ascii_text_less("Dir.list!"@, "Env.cwd!"@, 0);
        } else if index == 5 {
            reveal_strlit("Env.cwd!");
            reveal_strlit("Env.exe_path!");
            lemma_ascii_text_less("Env.cwd!"@, "Env.exe_path!"@, 4);
        } else if index == 6 {
            reveal_strlit("Env.exe_path!");
            reveal_strlit("Env.var!");
            lemma_ascii_text_less("Env.exe_path!"@, "Env.var!"@, 4);
        } else if index == 7 {
            reveal_strlit("Env.var!");
            reveal_strlit("File.delete!");
            lemma_ascii_text_less("Env.var!"@, "File.delete!"@, 0);
        } else if index == 8 {
            reveal_strlit("File.delete!");
            reveal_strlit("File.read_bytes!");
            lemma_ascii_text_less("File.delete!"@, "File.read_bytes!"@, 5);
        } else if index == 9 {
            reveal_strlit("File.read_bytes!");
            reveal_strlit("File.read_utf8!");
            lemma_ascii_text_less("File.read_bytes!"@, "File.read_utf8!"@, 10);
        } else if index == 10 {
            reveal_strlit("File.read_utf8!");
            reveal_strlit("File.write_bytes!");
            lemma_ascii_text_less("File.read_utf8!"@, "File.write_bytes!"@, 5);
        } else if index == 11 {
            reveal_strlit("File.write_bytes!");
            reveal_strlit("File.write_utf8!");
            lemma_ascii_text_less("File.write_bytes!"@, "File.write_utf8!"@, 11);
        } else if index == 12 {
            reveal_strlit("File.write_utf8!");
            reveal_strlit("Path.is_dir!");
            lemma_ascii_text_less("File.write_utf8!"@, "Path.is_dir!"@, 0);
        } else if index == 13 {
            reveal_strlit("Path.is_dir!");
            reveal_strlit("Path.is_file!");
            lemma_ascii_text_less("Path.is_dir!"@, "Path.is_file!"@, 8);
        } else if index == 14 {
            reveal_strlit("Path.is_file!");
            reveal_strlit("Path.is_sym_link!");
            lemma_ascii_text_less("Path.is_file!"@, "Path.is_sym_link!"@, 8);
        } else if index == 15 {
            reveal_strlit("Path.is_sym_link!");
            reveal_strlit("Path.type!");
            lemma_ascii_text_less("Path.is_sym_link!"@, "Path.type!"@, 5);
        } else if index == 16 {
            reveal_strlit("Path.type!");
            reveal_strlit("Stderr.line!");
            lemma_ascii_text_less("Path.type!"@, "Stderr.line!"@, 0);
        } else if index == 17 {
            reveal_strlit("Stderr.line!");
            reveal_strlit("Stderr.write!");
            lemma_ascii_text_less("Stderr.line!"@, "Stderr.write!"@, 7);
        } else if index == 18 {
            reveal_strlit("Stderr.write!");
            reveal_strlit("Stdin.line!");
            lemma_ascii_text_less("Stderr.write!"@, "Stdin.line!"@, 3);
        } else if index == 19 {
            reveal_strlit("Stdin.line!");
            reveal_strlit("Stdout.line!");
            lemma_ascii_text_less("Stdin.line!"@, "Stdout.line!"@, 3);
        } else if index == 20 {
            reveal_strlit("Stdout.line!");
            reveal_strlit("Stdout.write!");
            lemma_ascii_text_less("Stdout.line!"@, "Stdout.write!"@, 7);
        }
    }

    proof fn lemma_names_between(from: int, to: int)
        requires
            0 <= from < to < HOSTED_FN_COUNT,
        ensures
            Self::at(from).name_comes_before(Self::at(to)),
        decreases to - from,
    {
        Self::lemma_name_comes_before_next(to - 1);
        if from < to - 1 {
            Self::lemma_names_between(from, to - 1);
            lemma_bytes_less_transitive(
                encode_utf8(Self::at(from).name_text()),
                encode_utf8(Self::at(to - 1).name_text()),
                encode_utf8(Self::at(to).name_text()),
            );
        }
    }

    /// The dispatch table is in the alphabetical order of the qualified
    /// names: an operation with a smaller index has a name that comes first.
    pub proof fn lemma_table_is_alphabetical(a: HostedOp, b: HostedOp)
        requires
            a.index() < b.index(),
        ensures
            a.name_comes_before(b),
    {
        assert(Self::at(a.index() as int) == a);
        assert(Self::at(b.index() as int) == b);
        Self::lemma_names_between(a.index() as int, b.index() as int);
    }
}

} // verus!
