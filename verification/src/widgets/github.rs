//! A widget summarising GitHub activity: issues, pull requests, stars,
//! notifications and a week of commit counts.

use vstd::prelude::*;

verus! {

#[derive(Debug, PartialEq, Eq)]
pub struct Github {
    pub username: String,
    pub repo: Option<String>,
    // Cached stats, refreshed through the transport.
    pub open_issues: u32,
    pub open_prs: u32,
    pub stars: u32,
    pub notifications: u32,
    pub commits: [i32; 7],
    pub weekday: usize,
}

/// Mathematical image of a [`Github`] widget.
pub struct GithubV {
    pub username: Seq<char>,
    pub repo: Option<Seq<char>>,
    pub open_issues: u32,
    pub open_prs: u32,
    pub stars: u32,
    pub notifications: u32,
    pub commits: Seq<i32>,
    pub weekday: usize,
}

impl View for Github {
    type V = GithubV;

    open spec fn view(&self) -> GithubV {
        GithubV {
            username: self.username@,
            repo: match self.repo {
                Some(r) => Some(r@),
                None => None,
            },
            open_issues: self.open_issues,
            open_prs: self.open_prs,
            stars: self.stars,
            notifications: self.notifications,
            commits: self.commits@,
            weekday: self.weekday,
        }
    }
}

impl Clone for Github {
    fn clone(&self) -> (r: Self)
        ensures
            r == *self,
    {
        Github {
            username: self.username.clone(),
            repo: match &self.repo {
                Some(r) => Some(r.clone()),
                None => None,
            },
            open_issues: self.open_issues,
            open_prs: self.open_prs,
            stars: self.stars,
            notifications: self.notifications,
            commits: self.commits,
            weekday: self.weekday,
        }
    }
}

impl Github {
    pub fn new(username: String, repo: Option<String>) -> (r: Self)
        ensures
            r.username == username,
            r.repo == repo,
            r.open_issues == 0,
            r.open_prs == 0,
            r.stars == 0,
            r.notifications == 0,
            r.commits@ == seq![0i32, 10, 0, 8, 5, 7, 0],
            r.weekday == 3,
    {
        let r = Github {
            username,
            repo,
            open_issues: 0,
            open_prs: 0,
            stars: 0,
            notifications: 0,
            commits: [0, 10, 0, 8, 5, 7, 0],
            weekday: 3,
        };
        proof {
            assert(r.commits@ =~= seq![0i32, 10, 0, 8, 5, 7, 0]);
        }
        r
    }

    /// Fresh statistics arrive through the transport, not locally.
    pub fn update(&mut self)
        ensures
            *final(self) == *old(self),
    {
    }
}

} // verus!
