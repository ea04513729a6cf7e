//! Registration: which tables the listing of a directory tree adds to the
//! registry.

use vstd::prelude::*;

use crate::naming::{parse_dirname, parse_dirname_spec, parse_filename, parse_filename_spec};
use crate::registry::Tablebase;
use crate::types::{BishopParities, Material, PawnFileType, TableKey};

verus! {

/// A file found in a directory: its name and the path to open it by.
#[derive(Debug, Clone)]
pub struct TableFile {
    pub name: String,
    pub path: String,
}

/// A directory found under the root, with the files in it.
#[derive(Debug, Clone)]
pub struct Directory {
    pub name: String,
    pub files: Vec<TableFile>,
}

/// What a directory name says of the tables in it.
pub type DirectoryKey = (Material, PawnFileType, BishopParities);

/// The key under which a file of a directory is registered: the file name
/// must read as a table file, and name the material of the directory.
pub open spec fn file_key(dir: DirectoryKey, file_name: Seq<char>) -> Option<TableKey> {
    match parse_filename_spec(file_name) {
        Some((material, side, kk_index, table_type)) => if material == dir.0 {
            Some(
                TableKey {
                    material,
                    pawn_file_type: dir.1,
                    bishop_parity: dir.2,
                    side,
                    kk_index,
                    table_type,
                },
            )
        } else {
            None
        },
        None => None,
    }
}

/// The registry after one file of a directory was looked at.
pub open spec fn with_file(
    tables: Map<TableKey, Seq<char>>,
    dir: DirectoryKey,
    file: TableFile,
) -> Map<TableKey, Seq<char>> {
    match file_key(dir, file.name@) {
        Some(key) => tables.insert(key, file.path@),
        None => tables,
    }
}

/// The registry after the first `n` files of a directory were looked at, in
/// their order.
pub open spec fn with_files(
    tables: Map<TableKey, Seq<char>>,
    dir: DirectoryKey,
    files: Seq<TableFile>,
    n: int,
) -> Map<TableKey, Seq<char>>
    decreases n,
{
    if n <= 0 {
        tables
    } else {
        with_file(with_files(tables, dir, files, n - 1), dir, files[n - 1])
    }
}

/// How many of the first `n` files of a directory are registered.
pub open spec fn count_files(dir: DirectoryKey, files: Seq<TableFile>, n: int) -> int
    decreases n,
{
    if n <= 0 {
        0
    } else {
        count_files(dir, files, n - 1) + if file_key(dir, files[n - 1].name@) is Some {
            1int
        } else {
            0int
        }
    }
}

/// The registry after a directory was looked at: unchanged where its name
/// does not read as a directory of tables.
pub open spec fn with_directory(
    tables: Map<TableKey, Seq<char>>,
    directory: Directory,
) -> Map<TableKey, Seq<char>> {
    match parse_dirname_spec(directory.name@) {
        Some(dir) => with_files(tables, dir, directory.files@, directory.files@.len() as int),
        None => tables,
    }
}

/// How many files of a directory are registered.
pub open spec fn count_directory(directory: Directory) -> int {
    match parse_dirname_spec(directory.name@) {
        Some(dir) => count_files(dir, directory.files@, directory.files@.len() as int),
        None => 0,
    }
}

/// The registry after the first `n` directories were looked at, in their
/// order.
pub open spec fn with_directories(
    tables: Map<TableKey, Seq<char>>,
    directories: Seq<Directory>,
    n: int,
) -> Map<TableKey, Seq<char>>
    decreases n,
{
    if n <= 0 {
        tables
    } else {
        with_directory(with_directories(tables, directories, n - 1), directories[n - 1])
    }
}

/// How many files of the first `n` directories are registered.
pub open spec fn count_directories(directories: Seq<Directory>, n: int) -> int
    decreases n,
{
    if n <= 0 {
        0
    } else {
        count_directories(directories, n - 1) + count_directory(directories[n - 1])
    }
}

/// A count as far as `usize` can hold it.
pub open spec fn saturated(count: int) -> usize {
    if count <= usize::MAX {
        count as usize
    } else {
        usize::MAX
    }
}

/// No more files are registered than were looked at, and never fewer than
/// none.
pub proof fn lemma_count_files_bounds(dir: DirectoryKey, files: Seq<TableFile>, n: int)
    requires
        0 <= n,
    ensures
        0 <= count_files(dir, files, n) <= n,
    decreases n,
{
    if n > 0 {
        lemma_count_files_bounds(dir, files, n - 1);
    }
}

/// A count of registered files is not negative.
pub proof fn lemma_count_directories_bounds(directories: Seq<Directory>, n: int)
    ensures
        0 <= count_directories(directories, n),
    decreases n,
{
    if n > 0 {
        lemma_count_directories_bounds(directories, n - 1);
        let directory = directories[n - 1];
        match parse_dirname_spec(directory.name@) {
            Some(dir) => {
                lemma_count_files_bounds(dir, directory.files@, directory.files@.len() as int);
            },
            None => {},
        }
    }
}

/// Looking at files adds to a registry what it adds to an empty one, and
/// what it adds wins over what was there.
pub proof fn lemma_with_files_adds(
    tables: Map<TableKey, Seq<char>>,
    dir: DirectoryKey,
    files: Seq<TableFile>,
    n: int,
)
    ensures
        with_files(tables, dir, files, n) == tables.union_prefer_right(
            with_files(Map::empty(), dir, files, n),
        ),
    decreases n,
{
    if n <= 0 {
        assert(tables =~= tables.union_prefer_right(Map::empty()));
    } else {
        lemma_with_files_adds(tables, dir, files, n - 1);
        let before = with_files(Map::<TableKey, Seq<char>>::empty(), dir, files, n - 1);
        match file_key(dir, files[n - 1].name@) {
            Some(key) => {
                assert(tables.union_prefer_right(before).insert(key, files[n - 1].path@)
                    =~= tables.union_prefer_right(before.insert(key, files[n - 1].path@)));
            },
            None => {},
        }
    }
}

/// Looking at directories adds to a registry what it adds to an empty one,
/// and what it adds wins over what was there.
pub proof fn lemma_with_directories_adds(
    tables: Map<TableKey, Seq<char>>,
    directories: Seq<Directory>,
    n: int,
)
    ensures
        with_directories(tables, directories, n) == tables.union_prefer_right(
            with_directories(Map::empty(), directories, n),
        ),
    decreases n,
{
    if n <= 0 {
        assert(tables =~= tables.union_prefer_right(Map::empty()));
    } else {
        lemma_with_directories_adds(tables, directories, n - 1);
        let before = with_directories(Map::<TableKey, Seq<char>>::empty(), directories, n - 1);
        let directory = directories[n - 1];
        match parse_dirname_spec(directory.name@) {
            Some(dir) => {
                let len = directory.files@.len() as int;
                let added = with_files(Map::<TableKey, Seq<char>>::empty(), dir, directory.files@, len);
                lemma_with_files_adds(tables.union_prefer_right(before), dir, directory.files@, len);
                lemma_with_files_adds(before, dir, directory.files@, len);
                assert(tables.union_prefer_right(before).union_prefer_right(added)
                    =~= tables.union_prefer_right(before.union_prefer_right(added)));
            },
            None => {},
        }
    }
}

/// Registration is idempotent: registering the same listing a second time
/// leaves the registry as the first registration left it.
pub proof fn lemma_registration_idempotent(
    tables: Map<TableKey, Seq<char>>,
    directories: Seq<Directory>,
)
    ensures
        with_directories(
            with_directories(tables, directories, directories.len() as int),
            directories,
            directories.len() as int,
        ) == with_directories(tables, directories, directories.len() as int),
{
    let n = directories.len() as int;
    let once = with_directories(tables, directories, n);
    let added = with_directories(Map::<TableKey, Seq<char>>::empty(), directories, n);
    lemma_with_directories_adds(tables, directories, n);
    lemma_with_directories_adds(once, directories, n);
    assert(tables.union_prefer_right(added).union_prefer_right(added)
        =~= tables.union_prefer_right(added));
}

impl<H> Tablebase<H> {
    /// Looks at one file of a directory that reads as `dir`: registers its
    /// path where the file name reads as a table file of the directory's
    /// material, in place of what its key had before, and says whether it
    /// did.
    pub fn add_file(&mut self, dir: &DirectoryKey, file: &TableFile) -> (added: bool)
        ensures
            final(self)@ == with_file(old(self)@, *dir, *file),
            added == file_key(*dir, file.name@) is Some,
    {
        match parse_filename(file.name.as_str()) {
            Some((file_material, side, kk_index, table_type)) => {
                if dir.0 == file_material {
                    self.insert(
                        TableKey {
                            material: file_material,
                            pawn_file_type: dir.1,
                            bishop_parity: dir.2,
                            side,
                            kk_index,
                            table_type,
                        },
                        file.path.clone(),
                    );
                    true
                } else {
                    false
                }
            },
            None => false,
        }
    }

    /// Looks at a directory: where its name reads as a directory of tables,
    /// at each of its files in turn, as `add_file` does. Returns how many
    /// files were registered.
    pub fn add_directory(&mut self, directory: &Directory) -> (num: usize)
        ensures
            final(self)@ == with_directory(old(self)@, *directory),
            num == count_directory(*directory),
    {
        let dir = match parse_dirname(directory.name.as_str()) {
            Some(dir) => dir,
            None => {
                return 0;
            },
        };
        let mut num: usize = 0;
        let mut i: usize = 0;
        while i < directory.files.len()
            invariant
                i <= directory.files@.len(),
                parse_dirname_spec(directory.name@) == Some(dir),
                self@ == with_files(old(self)@, dir, directory.files@, i as int),
                num == count_files(dir, directory.files@, i as int),
                num <= i,
            decreases directory.files@.len() - i,
        {
            if self.add_file(&dir, &directory.files[i]) {
                num = num + 1;
            }
            i = i + 1;
        }
        num
    }

    /// Registers the tables of a listing: looks at each directory in turn,
    /// as `add_directory` does. Returns how many files were registered, as
    /// far as `usize` can hold the number; a file registered under a key
    /// that was registered before counts again.
    pub fn add_path(&mut self, directories: &Vec<Directory>) -> (num: usize)
        ensures
            final(self)@ == with_directories(
                old(self)@,
                directories@,
                directories@.len() as int,
            ),
            num == saturated(count_directories(directories@, directories@.len() as int)),
    {
        let mut num: usize = 0;
        let mut i: usize = 0;
        while i < directories.len()
            invariant
                i <= directories@.len(),
                self@ == with_directories(old(self)@, directories@, i as int),
                num == saturated(count_directories(directories@, i as int)),
            decreases directories@.len() - i,
        {
            proof {
                lemma_count_directories_bounds(directories@, i as int);
                lemma_count_directories_bounds(directories@, i + 1);
            }
            let added = self.add_directory(&directories[i]);
            num = if usize::MAX - num >= added {
                num + added
            } else {
                usize::MAX
            };
            i = i + 1;
        }
        num
    }
}

} // verus!
