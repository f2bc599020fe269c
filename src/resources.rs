use std::marker::PhantomData;
use vstd::prelude::*;

use crate::text::{blank, is_blank};

verus! {

/// Body of a request that creates a post.
#[derive(Clone, Debug)]
pub struct CreatePostRequest {
    pub title: String,
    pub content: String,
    /// The author's user id, a UUID text.
    pub author_id: String,
}

/// Body of a request that changes a post; an absent field is left as it is.
#[derive(Clone, Debug)]
pub struct UpdatePostRequest {
    pub title: Option<String>,
    pub content: Option<String>,
}

/// A post as the API returns it.
#[derive(Clone, Debug)]
pub struct PostResponse {
    /// The public (encoded) id.
    pub id: String,
    pub title: String,
    pub content: String,
    pub author_id: String,
}

/// Body of a request that creates a user.
#[derive(Clone, Debug)]
pub struct CreateUserRequest {
    pub user_name: String,
    pub image_url: Option<String>,
}

/// Body of a request that changes a user. `image_url` has three states: absent (leave it),
/// `Some(None)` (clear it) and `Some(Some(v))` (set it).
#[derive(Clone, Debug)]
pub struct UpdateUserRequest {
    pub user_name: Option<String>,
    pub image_url: Option<Option<String>>,
}

/// A user as the API returns it.
#[derive(Clone, Debug)]
pub struct UserResponse {
    pub id: u128,
    pub user_name: String,
    pub image_url: Option<String>,
}

/// The longest image URL accepted, in bytes.
pub const MAX_IMAGE_URL_BYTES: usize = 256;

pub open spec fn opt_blank(o: Option<String>) -> bool {
    o matches Some(s) && blank(s@)
}

impl CreatePostRequest {
    /// Title, content and author must not be blank, checked in that order.
    pub fn validate(&self) -> (r: Result<(), &'static str>)
        ensures
            blank(self.title@) ==> (r matches Err(m) && m@ == "title is required"@),
            !blank(self.title@) && blank(self.content@) ==> (r matches Err(m) && m@
                == "content is required"@),
            !blank(self.title@) && !blank(self.content@) && blank(self.author_id@) ==> (r matches Err(
                m,
            ) && m@ == "author_id is required"@),
            r is Ok <==> !blank(self.title@) && !blank(self.content@) && !blank(self.author_id@),
    {
        if is_blank(self.title.as_str()) {
            return Err("title is required");
        }
        if is_blank(self.content.as_str()) {
            return Err("content is required");
        }
        if is_blank(self.author_id.as_str()) {
            return Err("author_id is required");
        }
        Ok(())
    }
}

impl UpdatePostRequest {
    /// A title or content that is given must not be blank.
    pub fn validate(&self) -> (r: Result<(), &'static str>)
        ensures
            opt_blank(self.title) ==> (r matches Err(m) && m@ == "title cannot be empty"@),
            !opt_blank(self.title) && opt_blank(self.content) ==> (r matches Err(m) && m@
                == "content cannot be empty"@),
            r is Ok <==> !opt_blank(self.title) && !opt_blank(self.content),
    {
        if let Some(title) = &self.title {
            if is_blank(title.as_str()) {
                return Err("title cannot be empty");
            }
        }
        if let Some(content) = &self.content {
            if is_blank(content.as_str()) {
                return Err("content cannot be empty");
            }
        }
        Ok(())
    }
}

pub open spec fn long_url(o: Option<String>) -> bool {
    o matches Some(u) && crate::digest::utf8(u@).len() > 256
}

impl CreateUserRequest {
    /// The name must not be blank; an image URL must hold at most 256 bytes.
    pub fn validate(&self) -> (r: Result<(), &'static str>)
        ensures
            blank(self.user_name@) ==> (r matches Err(m) && m@ == "user_name is required"@),
            !blank(self.user_name@) && long_url(self.image_url) ==> (r matches Err(m) && m@
                == "image_url must be <= 256 chars"@),
            r is Ok <==> !blank(self.user_name@) && !long_url(self.image_url),
    {
        if is_blank(self.user_name.as_str()) {
            return Err("user_name is required");
        }
        if let Some(url) = &self.image_url {
            if url.as_str().as_bytes().len() > MAX_IMAGE_URL_BYTES {
                return Err("image_url must be <= 256 chars");
            }
        }
        Ok(())
    }
}

pub open spec fn long_url_set(o: Option<Option<String>>) -> bool {
    o matches Some(Some(u)) && crate::digest::utf8(u@).len() > 256
}

impl UpdateUserRequest {
    /// A name that is given must not be blank; an image URL that is set must hold at most
    /// 256 bytes.
    pub fn validate(&self) -> (r: Result<(), &'static str>)
        ensures
            opt_blank(self.user_name) ==> (r matches Err(m) && m@ == "user_name cannot be empty"@),
            !opt_blank(self.user_name) && long_url_set(self.image_url) ==> (r matches Err(m) && m@
                == "image_url must be <= 256 chars"@),
            r is Ok <==> !opt_blank(self.user_name) && !long_url_set(self.image_url),
    {
        if let Some(name) = &self.user_name {
            if is_blank(name.as_str()) {
                return Err("user_name cannot be empty");
            }
        }
        if let Some(Some(url)) = &self.image_url {
            if url.as_str().as_bytes().len() > MAX_IMAGE_URL_BYTES {
                return Err("image_url must be <= 256 chars");
            }
        }
        Ok(())
    }
}

/// Marks public ids of posts.
pub enum PostTag {
    Post,
}

/// The public id of a post.
pub type PublicPostId = PublicId<PostTag>;

/// An internal id read from a public id, typed by the resource it names.
pub struct PublicId<T> {
    pub id: i64,
    pub _marker: PhantomData<T>,
}

impl<T> PublicId<T> {
    pub fn new(id: i64) -> (r: Self)
        ensures
            r.id == id,
    {
        PublicId { id, _marker: PhantomData }
    }
}

} // verus!
