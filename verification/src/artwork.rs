//! Domain records carried through the engine.
//!
//! A store record is keyed by its stable artwork identifier and carries an
//! optional `last_update_time` stamp (seconds since the Unix epoch) whose
//! presence and age drive refill selection. Every other field is optional
//! content filled in by the external fetcher; the engine never reads those
//! fields, it only merges them into the store.

use vstd::prelude::*;

verus! {

/// One content record, as the store keeps it and as a successful fetch
/// returns it. Optional fields left `None` by a fetch are treated as
/// "not provided" and never overwrite stored content on an upsert.
pub struct Artwork {
    pub artwork_id: i64,
    pub caption: Option<String>,
    pub create_date: Option<String>,
    pub artwork_type: Option<String>,
    pub height: Option<i32>,
    pub width: Option<i32>,
    pub sanity_level: Option<i32>,
    pub title: Option<String>,
    pub total_bookmarks: Option<i32>,
    pub total_view: Option<i32>,
    pub last_update_time: Option<u64>,
    pub image_urls: Option<PixivImageUrls>,
    pub user: Option<PixivUser>,
    pub tags: Option<Vec<PixivTag>>,
}

/// The image locations of a record, all optional.
pub struct PixivImageUrls {
    pub medium: Option<String>,
    pub square_medium: Option<String>,
    pub large: Option<String>,
}

/// An author reference: the task payload of the author-catalog crawl.
pub struct PixivUser {
    pub account: Option<String>,
    pub user_id: Option<i64>,
    pub name: Option<String>,
}

impl PixivUser {
    /// An exact copy of this author reference.
    pub fn duplicate(&self) -> (r: PixivUser)
        ensures
            r == *self,
    {
        PixivUser {
            account: match &self.account {
                Some(s) => Some(s.clone()),
                None => None,
            },
            user_id: self.user_id,
            name: match &self.name {
                Some(s) => Some(s.clone()),
                None => None,
            },
        }
    }
}

/// One tag of a record, with an optional translation.
pub struct PixivTag {
    pub name: String,
    pub trans: Option<String>,
}

impl Artwork {
    /// A record holding nothing but its identifier: what an upsert of a
    /// bare identifier inserts when the store has no record yet.
    pub open spec fn spec_blank(id: i64) -> Artwork {
        Artwork {
            artwork_id: id,
            caption: None,
            create_date: None,
            artwork_type: None,
            height: None,
            width: None,
            sanity_level: None,
            title: None,
            total_bookmarks: None,
            total_view: None,
            last_update_time: None,
            image_urls: None,
            user: None,
            tags: None,
        }
    }

    /// Builds the record that holds only the given identifier.
    pub fn blank(id: i64) -> (r: Artwork)
        ensures
            r == Artwork::spec_blank(id),
    {
        Artwork {
            artwork_id: id,
            caption: None,
            create_date: None,
            artwork_type: None,
            height: None,
            width: None,
            sanity_level: None,
            title: None,
            total_bookmarks: None,
            total_view: None,
            last_update_time: None,
            image_urls: None,
            user: None,
            tags: None,
        }
    }

    /// The merge of `update` into `base`: every field `update` provides
    /// replaces the stored one, every field it leaves `None` keeps the
    /// stored content untouched.
    pub open spec fn spec_merge(base: Artwork, update: Artwork) -> Artwork {
        Artwork {
            artwork_id: update.artwork_id,
            caption: if update.caption is Some { update.caption } else { base.caption },
            create_date: if update.create_date is Some { update.create_date } else { base.create_date },
            artwork_type: if update.artwork_type is Some { update.artwork_type } else { base.artwork_type },
            height: if update.height is Some { update.height } else { base.height },
            width: if update.width is Some { update.width } else { base.width },
            sanity_level: if update.sanity_level is Some { update.sanity_level } else { base.sanity_level },
            title: if update.title is Some { update.title } else { base.title },
            total_bookmarks: if update.total_bookmarks is Some { update.total_bookmarks } else { base.total_bookmarks },
            total_view: if update.total_view is Some { update.total_view } else { base.total_view },
            last_update_time: if update.last_update_time is Some { update.last_update_time } else { base.last_update_time },
            image_urls: if update.image_urls is Some { update.image_urls } else { base.image_urls },
            user: if update.user is Some { update.user } else { base.user },
            tags: if update.tags is Some { update.tags } else { base.tags },
        }
    }

    /// Merges `update` into this record, field by field.
    pub fn merge_from(&mut self, update: Artwork)
        ensures
            *final(self) == Artwork::spec_merge(*old(self), update),
    {
        let Artwork {
            artwork_id,
            caption,
            create_date,
            artwork_type,
            height,
            width,
            sanity_level,
            title,
            total_bookmarks,
            total_view,
            last_update_time,
            image_urls,
            user,
            tags,
        } = update;
        self.artwork_id = artwork_id;
        if caption.is_some() {
            self.caption = caption;
        }
        if create_date.is_some() {
            self.create_date = create_date;
        }
        if artwork_type.is_some() {
            self.artwork_type = artwork_type;
        }
        if height.is_some() {
            self.height = height;
        }
        if width.is_some() {
            self.width = width;
        }
        if sanity_level.is_some() {
            self.sanity_level = sanity_level;
        }
        if title.is_some() {
            self.title = title;
        }
        if total_bookmarks.is_some() {
            self.total_bookmarks = total_bookmarks;
        }
        if total_view.is_some() {
            self.total_view = total_view;
        }
        if last_update_time.is_some() {
            self.last_update_time = last_update_time;
        }
        if image_urls.is_some() {
            self.image_urls = image_urls;
        }
        if user.is_some() {
            self.user = user;
        }
        if tags.is_some() {
            self.tags = tags;
        }
    }
}

} // verus!
