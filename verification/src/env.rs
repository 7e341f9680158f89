//! The configuration of a session: where the storage tree lies.

use vstd::prelude::*;

use crate::store::StoreError;
use crate::text::{spec_trim, trimmed};

verus! {

/// The configuration: the name of the file that records it and the root
/// of the storage tree.
#[derive(Debug)]
pub struct EnvData {
    env_file_name: String,
    git_folder_path: String,
}

/// The mathematical value of an [`EnvData`].
pub struct EnvDataView {
    pub env_file_name: Seq<char>,
    pub git_folder_path: Seq<char>,
}

impl View for EnvData {
    type V = EnvDataView;

    closed spec fn view(&self) -> EnvDataView {
        EnvDataView { env_file_name: self.env_file_name@, git_folder_path: self.git_folder_path@ }
    }
}

/// The name of the configuration file: `.env`.
pub open spec fn spec_env_file_name() -> Seq<char> {
    seq!['.', 'e', 'n', 'v']
}

impl EnvData {
    /// The configuration for a storage tree at `git_folder_path`, recorded
    /// in the file `.env`. It never fails.
    pub fn create_new(git_folder_path: &str) -> (made: Result<EnvData, StoreError>)
        ensures
            made is Ok,
            made->Ok_0@ == (EnvDataView {
                env_file_name: spec_env_file_name(),
                git_folder_path: git_folder_path@,
            }),
    {
        proof {
            reveal_strlit(".env");
            assert(".env"@ =~= spec_env_file_name());
        }
        Ok(EnvData { env_file_name: ".env".to_owned(), git_folder_path: git_folder_path.to_owned() })
    }

    /// The configuration for the storage tree that was named in answer to
    /// the prompt for it: the line that was read, without the whitespace
    /// and the line break around it. It never fails.
    pub fn from_answer(line: &str) -> (made: Result<EnvData, StoreError>)
        ensures
            made is Ok,
            made->Ok_0@ == (EnvDataView {
                env_file_name: spec_env_file_name(),
                git_folder_path: spec_trim(line@),
            }),
    {
        let path = trimmed(line);
        EnvData::create_new(path.as_str())
    }

    /// The root of the storage tree.
    pub fn get_git_folder_path(&self) -> (path: String)
        ensures
            path@ == self@.git_folder_path,
    {
        self.git_folder_path.clone()
    }

    /// The name of the file that records the configuration.
    pub fn get_env_file_name(&self) -> (name: String)
        ensures
            name@ == self@.env_file_name,
    {
        self.env_file_name.clone()
    }

    /// Points the configuration at another storage tree, given whether
    /// the configuration file was there to be replaced. Where it was not,
    /// the configuration stays as it is.
    pub fn retarget(&mut self, file_existed: bool, git_folder_path: &str)
        ensures
            final(self)@ == (EnvDataView {
                env_file_name: old(self)@.env_file_name,
                git_folder_path: if file_existed {
                    git_folder_path@
                } else {
                    old(self)@.git_folder_path
                },
            }),
    {
        if file_existed {
            self.git_folder_path = git_folder_path.to_owned();
        }
    }
}

} // verus!
