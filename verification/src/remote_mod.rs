//! Mods that a loader's remote catalogue offers.
use vstd::prelude::*;

use crate::game_mod::{CommonModData, CommonModDataView};

verus! {

/// Where the latest version of a remote mod can be downloaded from.
#[derive(Debug, PartialEq, Eq)]
pub struct ModDownload {
    pub id: String,
    pub url: String,
}

/// The mathematical value of a [`ModDownload`].
pub struct ModDownloadView {
    pub id: Seq<char>,
    pub url: Seq<char>,
}

#[derive(Debug, PartialEq, Eq)]
pub struct RemoteModData {
    pub title: String,
    /// Absent where the mod can only be obtained by hand.
    pub latest_version: Option<ModDownload>,
}

/// The mathematical value of a [`RemoteModData`].
pub struct RemoteModDataView {
    pub title: Seq<char>,
    pub latest_version: Option<ModDownloadView>,
}

#[derive(Debug, PartialEq, Eq)]
pub struct RemoteMod {
    pub common: CommonModData,
    pub data: RemoteModData,
}

/// The mathematical value of a [`RemoteMod`].
pub struct RemoteModView {
    pub common: CommonModDataView,
    pub data: RemoteModDataView,
}

impl View for ModDownload {
    type V = ModDownloadView;

    open spec fn view(&self) -> ModDownloadView {
        ModDownloadView { id: self.id@, url: self.url@ }
    }
}

impl View for RemoteModData {
    type V = RemoteModDataView;

    open spec fn view(&self) -> RemoteModDataView {
        RemoteModDataView {
            title: self.title@,
            latest_version: match self.latest_version {
                Some(d) => Some(d@),
                None => None,
            },
        }
    }
}

impl View for RemoteMod {
    type V = RemoteModView;

    open spec fn view(&self) -> RemoteModView {
        RemoteModView { common: self.common@, data: self.data@ }
    }
}

impl Clone for ModDownload {
    fn clone(&self) -> (r: Self)
        ensures
            r == *self,
    {
        ModDownload { id: self.id.clone(), url: self.url.clone() }
    }
}

impl Clone for RemoteModData {
    fn clone(&self) -> (r: Self)
        ensures
            r == *self,
    {
        RemoteModData {
            title: self.title.clone(),
            latest_version: match &self.latest_version {
                Some(d) => Some(d.clone()),
                None => None,
            },
        }
    }
}

impl Clone for RemoteMod {
    fn clone(&self) -> (r: Self)
        ensures
            r == *self,
    {
        RemoteMod { common: self.common.clone(), data: self.data.clone() }
    }
}

} // verus!
