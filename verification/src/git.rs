//! The version-control collaborator protocol: one repository handle and
//! the decision layer over the outputs of its commands.
//!
//! Running the commands is I/O and lives outside the library; each method
//! here takes what a command reported (exit code, trimmed output, error
//! text) and decides what it means for the release protocol, including the
//! exit-code convention of the remote tag query (2 means not found, any
//! other non-zero exit is a real error).

use vstd::prelude::*;

use crate::errors::ReleaseError;
use crate::text::{concat2, concat3, contains_ci, contains_ci_seq, first_token, spec_first_token};

verus! {

use vstd::string::StringExecFns;

/// One repository of the release set: its name, its local directory and
/// the owner its origin remote must reference.
#[derive(Clone, Debug)]
pub struct Repo {
    pub name: String,
    pub dir: String,
    pub owner: String,
}

/// Whether a remote URL references the expected owner and repository,
/// compared case-insensitively so both SSH and HTTPS forms are accepted.
pub open spec fn origin_ok(owner: Seq<char>, name: Seq<char>, url: Seq<char>) -> bool {
    contains_ci_seq(url, owner + seq!['/'] + name)
}

impl Repo {
    pub fn new(owner: &str, name: &str, dir: &str) -> (r: Self)
        ensures
            r.owner@ == owner@,
            r.name@ == name@,
            r.dir@ == dir@,
    {
        Repo { name: String::from_str(name), dir: String::from_str(dir), owner: String::from_str(owner) }
    }

    /// Accept a worktree only when its porcelain status listed no dirty
    /// paths.
    pub fn ensure_worktree_clean(&self, dirty_paths: Vec<String>) -> (r: Result<(), ReleaseError>)
        ensures
            match r {
                Ok(()) => dirty_paths@.len() == 0,
                Err(e) => dirty_paths@.len() > 0 && (e matches ReleaseError::DirtyWorktree {
                    repo,
                    paths,
                } && repo == self.name && paths == dirty_paths),
            },
    {
        if dirty_paths.len() == 0 {
            Ok(())
        } else {
            Err(ReleaseError::DirtyWorktree { repo: self.name.clone(), paths: dirty_paths })
        }
    }

    /// Accept an origin remote URL only when it references the expected
    /// owner and repository name.
    pub fn ensure_origin_matches_expected(&self, url: String) -> (r: Result<(), ReleaseError>)
        ensures
            match r {
                Ok(()) => origin_ok(self.owner@, self.name@, url@),
                Err(e) => !origin_ok(self.owner@, self.name@, url@) && (e matches
                ReleaseError::OriginMismatch { repo, url: u } && repo == self.name && u == url),
            },
    {
        let needle = concat3(self.owner.as_str(), "/", self.name.as_str());
        proof {
            reveal_strlit("/");
            assert(needle@ =~= self.owner@ + seq!['/'] + self.name@);
        }
        if contains_ci(url.as_str(), needle.as_str()) {
            Ok(())
        } else {
            Err(ReleaseError::OriginMismatch { repo: self.name.clone(), url })
        }
    }

    /// Decide the branch-and-sync check from what the collaborator
    /// reported: the branch query's exit code and output, the local and
    /// remote-tracking HEAD commits, and the diverged-commit counts. A
    /// failing or empty branch query means a detached HEAD; differing
    /// heads mean a diverged branch; otherwise the branch name is
    /// returned.
    pub fn ensure_on_branch_and_synced_to_origin(
        &self,
        branch_code: i32,
        branch: String,
        local_head: String,
        remote_head: String,
        ahead: u64,
        behind: u64,
    ) -> (r: Result<String, ReleaseError>)
        ensures
            match r {
                Ok(b) => branch_code == 0 && branch@.len() > 0 && local_head@ == remote_head@ && b
                    == branch,
                Err(e) => {
                    ||| (branch_code != 0 || branch@.len() == 0) && (e matches
                    ReleaseError::DetachedHead { repo } && repo == self.name)
                    ||| (branch_code == 0 && branch@.len() > 0 && local_head@ != remote_head@ && (e
                    matches ReleaseError::BranchDiverged {
                        repo,
                        local_sha,
                        remote_sha,
                        ahead: a,
                        behind: b,
                    } && repo == self.name && local_sha == local_head && remote_sha
                        == remote_head && a == ahead && b == behind))
                },
            },
    {
        if branch_code != 0 || branch.as_str().unicode_len() == 0 {
            return Err(ReleaseError::DetachedHead { repo: self.name.clone() });
        }
        if !crate::text::str_eq(local_head.as_str(), remote_head.as_str()) {
            return Err(ReleaseError::BranchDiverged {
                repo: self.name.clone(),
                local_sha: local_head,
                remote_sha: remote_head,
                ahead,
                behind,
            });
        }
        Ok(branch)
    }

    /// Decide the tag-absence check: `local_list` is the output of the
    /// local tag listing (non-empty means the tag exists locally);
    /// `remote_code` is the exit code of the remote tag probe, where 0
    /// means the tag exists on the remote, 2 means not found, and any
    /// other value is a real failure.
    pub fn ensure_tag_absent_local_and_remote(
        &self,
        local_list: String,
        remote_code: i32,
        remote_stderr: String,
    ) -> (r: Result<(), ReleaseError>)
        ensures
            match r {
                Ok(()) => local_list@.len() == 0 && remote_code == 2,
                Err(e) => {
                    ||| (local_list@.len() > 0 && (e matches ReleaseError::TagAlreadyExists { repo }
                        && repo == self.name))
                    ||| (local_list@.len() == 0 && remote_code == 0 && (e matches
                    ReleaseError::TagAlreadyExists { repo } && repo == self.name))
                    ||| (local_list@.len() == 0 && remote_code != 0 && remote_code != 2 && (e
                    matches ReleaseError::CommandFailed { repo, detail } && repo == self.name
                        && detail == remote_stderr))
                },
            },
    {
        if local_list.as_str().unicode_len() > 0 {
            return Err(ReleaseError::TagAlreadyExists { repo: self.name.clone() });
        }
        if remote_code == 0 {
            return Err(ReleaseError::TagAlreadyExists { repo: self.name.clone() });
        }
        if remote_code != 2 {
            return Err(ReleaseError::CommandFailed {
                repo: self.name.clone(),
                detail: remote_stderr,
            });
        }
        Ok(())
    }

    /// Interpret the local tag resolution: a failing verify probe or an
    /// empty commit listing means the tag does not exist locally.
    pub fn local_tag_commit(&self, verify_code: i32, commit: String) -> (r: Option<String>)
        ensures
            match r {
                Some(c) => verify_code == 0 && commit@.len() > 0 && c == commit,
                None => verify_code != 0 || commit@.len() == 0,
            },
    {
        if verify_code != 0 {
            return None;
        }
        if commit.as_str().unicode_len() == 0 {
            return None;
        }
        Some(commit)
    }

    /// Interpret the remote tag query: any non-zero exit is a real
    /// failure; otherwise the commit is the first token of the output
    /// (`<sha>\t<ref>`), and an empty token means the tag is absent.
    pub fn remote_tag_commit(&self, code: i32, stdout: String, stderr: String) -> (r: Result<
        Option<String>,
        ReleaseError,
    >)
        ensures
            match r {
                Ok(Some(sha)) => code == 0 && spec_first_token(stdout@).len() > 0 && sha@
                    == spec_first_token(stdout@),
                Ok(None) => code == 0 && spec_first_token(stdout@).len() == 0,
                Err(e) => code != 0 && (e matches ReleaseError::CommandFailed { repo, detail }
                    && repo == self.name && detail == stderr),
            },
    {
        if code != 0 {
            return Err(ReleaseError::CommandFailed { repo: self.name.clone(), detail: stderr });
        }
        let sha = first_token(stdout.as_str());
        if sha.as_str().unicode_len() == 0 {
            Ok(None)
        } else {
            Ok(Some(sha))
        }
    }
}

/// The fixed message template of the annotated release tag.
pub fn annotated_tag_message(tag: &str) -> (r: String)
    ensures
        r@ == "Release "@ + tag@,
{
    concat2("Release ", tag)
}

} // verus!
