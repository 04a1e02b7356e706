//! Stepping through the photos of a collection, one page of photos at a time.
use vstd::prelude::*;

use crate::unsplash::CollectionPhotos;

verus! {

/// How many photos a requested page holds.
pub const PAGE_SIZE: usize = 10;

/// The page (from 1) that holds photo `i` of the collection.
pub open spec fn page_of(i: usize) -> usize {
    (i / PAGE_SIZE + 1) as usize
}

/// Where a step of `direction` from photo `current` lands: past the end it wraps to the first
/// photo, before the first to `total`.
pub open spec fn stepped(current: usize, total: usize, direction: int) -> usize {
    let new = current + direction;
    if new < 0 {
        total
    } else if new > total {
        0
    } else {
        new as usize
    }
}

/// What a step asks of the caller.
#[derive(Debug, Clone, Copy, PartialEq, Eq, Structural)]
pub enum SlideAction {
    /// Nothing: the slideshow is paused.
    Stay,
    /// Show the photo from the page already held.
    ShowHeld,
    /// Fetch this page of the collection.
    FetchPage(usize),
}

/// Where the slideshow of a collection stands.
pub struct SlideshowState {
    /// The id of the collection.
    pub collection: String,
    /// The photo shown, counted from 0.
    pub current: usize,
    /// The number of photos of the collection.
    pub total: usize,
    pub paused: bool,
    /// The page held, from 1 (0: none yet).
    pub current_page: usize,
    pub current_page_photos: Option<CollectionPhotos>,
}

impl SlideshowState {
    /// A slideshow at the first photo of a collection, running, with no page held.
    pub fn new(collection: String, total: usize) -> (r: Self)
        ensures
            r.collection == collection,
            r.current == 0,
            r.total == total,
            !r.paused,
            r.current_page == 0,
            r.current_page_photos is None,
    {
        SlideshowState {
            collection,
            current: 0,
            total,
            paused: false,
            current_page: 0,
            current_page_photos: None,
        }
    }

    /// Steps `direction` photos on (back where negative), unless paused, and says whether the
    /// page of the new photo is held or must be fetched.
    pub fn request(&mut self, direction: isize) -> (r: SlideAction)
        ensures
            final(self).collection == old(self).collection,
            final(self).total == old(self).total,
            final(self).paused == old(self).paused,
            final(self).current_page == old(self).current_page,
            final(self).current_page_photos == old(self).current_page_photos,
            old(self).paused ==> final(self).current == old(self).current && r == SlideAction::Stay,
            !old(self).paused ==> final(self).current == stepped(
                old(self).current,
                old(self).total,
                direction as int,
            ) && r == if page_of(final(self).current) == old(self).current_page
                && old(self).current_page_photos is Some {
                SlideAction::ShowHeld
            } else {
                SlideAction::FetchPage(page_of(final(self).current))
            },
    {
        if self.paused {
            return SlideAction::Stay;
        }
        let new: i128 = self.current as i128 + direction as i128;
        self.current = if new < 0 {
            self.total
        } else if new > self.total as i128 {
            0
        } else {
            new as usize
        };
        let page = self.current / PAGE_SIZE + 1;
        if page == self.current_page && self.current_page_photos.is_some() {
            SlideAction::ShowHeld
        } else {
            SlideAction::FetchPage(page)
        }
    }

    /// Holds the fetched page `photos` as the page of the current photo, and gives the place
    /// of the current photo in it, if the page holds it.
    pub fn hold_page(&mut self, photos: CollectionPhotos) -> (r: Option<usize>)
        ensures
            final(self).collection == old(self).collection,
            final(self).current == old(self).current,
            final(self).total == old(self).total,
            final(self).paused == old(self).paused,
            final(self).current_page == page_of(old(self).current),
            final(self).current_page_photos == Some(photos),
            r == if old(self).current % PAGE_SIZE < photos.photos@.len() {
                Some(old(self).current % PAGE_SIZE)
            } else {
                None::<usize>
            },
    {
        let idx = self.current % PAGE_SIZE;
        let found = idx < photos.photos.len();
        self.current_page = self.current / PAGE_SIZE + 1;
        self.current_page_photos = Some(photos);
        if found {
            Some(idx)
        } else {
            None
        }
    }

    /// Pauses a running slideshow, or resumes a paused one.
    pub fn toggle_pause(&mut self)
        ensures
            final(self).paused == !old(self).paused,
            final(self).collection == old(self).collection,
            final(self).current == old(self).current,
            final(self).total == old(self).total,
            final(self).current_page == old(self).current_page,
            final(self).current_page_photos == old(self).current_page_photos,
    {
        self.paused = !self.paused;
    }
}

} // verus!
