//! Posts, comments, groups and friendships: who may see what, and how the
//! stored rows are made into what is sent out.

use crate::accounts::unknown_user;
use crate::models::{
    Comment, CommentResponse, Friendship, Group, GroupResponse, Message, MessageResponse, Post,
    PostResponse, UserResponse,
};
use crate::text::{blank, is_space, same_text, trimmed};
use vstd::prelude::*;

verus! {

/// Whether a viewer may see a post.
#[derive(Debug, PartialEq, Eq)]
pub enum Access {
    /// The viewer may see the post.
    Granted,
    /// The viewer may not see the post.
    Denied,
    /// The viewer may see the post if the author is a friend.
    FriendsOnly,
}

/// The rule of visibility. The author sees every post of their own. Of the
/// posts of others, a `public` one is seen by all, a `friends_only` one by
/// friends, and a `private` one or one with any other word by nobody.
pub open spec fn access_rule(author: Seq<char>, visibility: Seq<char>, viewer: Seq<char>) -> Access {
    if author == viewer {
        Access::Granted
    } else if visibility == "public"@ {
        Access::Granted
    } else if visibility == "friends_only"@ {
        Access::FriendsOnly
    } else {
        Access::Denied
    }
}

/// Whether `viewer_id` may see `post`, as far as the post alone decides.
pub fn can_view_post(post: &Post, viewer_id: &str) -> (access: Access)
    ensures
        access == access_rule(post.user_id@, post.visibility@, viewer_id@),
{
    if same_text(post.user_id.as_str(), viewer_id) {
        Access::Granted
    } else if same_text(post.visibility.as_str(), "public") {
        Access::Granted
    } else if same_text(post.visibility.as_str(), "friends_only") {
        Access::FriendsOnly
    } else {
        Access::Denied
    }
}

impl Access {
    /// The final answer, once it is known whether author and viewer are
    /// friends.
    pub fn settle(&self, friends: bool) -> (allowed: bool)
        ensures
            allowed == match self {
                Access::Granted => true,
                Access::Denied => false,
                Access::FriendsOnly => friends,
            },
    {
        match self {
            Access::Granted => true,
            Access::Denied => false,
            Access::FriendsOnly => friends,
        }
    }
}

/// Whether a post, a comment or a group name holds something: anything but
/// white space.
pub fn has_content(text: &str) -> (present: bool)
    ensures
        present == !blank(text@),
{
    let inner = trimmed(text);
    proof {
        let (lead, trail) = choose|lead: Seq<char>, trail: Seq<char>|
            text@ == lead + inner@ + trail && blank(lead) && blank(trail);
        if inner@.len() == 0 {
            assert forall|i: int| 0 <= i < text@.len() implies is_space(#[trigger] text@[i]) by {
                if i < lead.len() {
                    assert(text@[i] == lead[i]);
                } else {
                    assert(text@[i] == trail[i - lead.len()]);
                }
            }
        } else {
            assert(text@[lead.len() as int] == inner@.first());
        }
    }
    !inner.is_empty()
}

/// The visibility under which a new post is stored: the one asked for, and
/// `friends_only` where none is asked for.
pub fn visibility_or_default(requested: Option<String>) -> (visibility: String)
    ensures
        visibility@ == match requested {
            Some(word) => word@,
            None => "friends_only"@,
        },
{
    match requested {
        Some(word) => word,
        None => "friends_only".to_string(),
    }
}

/// Whether an author is shown: an anonymous author never is.
pub fn shown_author(is_anonymous: bool, author: Option<UserResponse>) -> (shown: Option<
    UserResponse,
>)
    ensures
        shown == if is_anonymous {
            None
        } else {
            author
        },
{
    if is_anonymous {
        None
    } else {
        author
    }
}

/// What is sent out for a post. `author` is the account of the post's
/// author as far as it was found; it is left out of an anonymous post.
pub fn build_post_response(
    post: &Post,
    author: Option<UserResponse>,
    likes_count: i32,
    comments_count: i32,
    is_liked: bool,
) -> (response: PostResponse)
    ensures
        response.id@ == post.id@,
        response.user == if post.is_anonymous {
            None
        } else {
            author
        },
        response.content@ == post.content@,
        response.visibility@ == post.visibility@,
        response.is_anonymous == post.is_anonymous,
        response.likes_count == likes_count,
        response.comments_count == comments_count,
        response.is_liked == is_liked,
        response.created_at@ == post.created_at@,
{
    PostResponse {
        id: post.id.clone(),
        user: shown_author(post.is_anonymous, author),
        content: post.content.clone(),
        visibility: post.visibility.clone(),
        is_anonymous: post.is_anonymous,
        likes_count,
        comments_count,
        is_liked,
        created_at: post.created_at.clone(),
    }
}

/// What is sent out for a comment; the author is left out of an anonymous
/// one.
pub fn build_comment_response(comment: Comment, author: Option<UserResponse>) -> (response:
    CommentResponse)
    ensures
        response.id == comment.id,
        response.user == if comment.is_anonymous {
            None
        } else {
            author
        },
        response.content == comment.content,
        response.is_anonymous == comment.is_anonymous,
        response.created_at == comment.created_at,
{
    CommentResponse {
        id: comment.id,
        user: shown_author(comment.is_anonymous, author),
        content: comment.content,
        is_anonymous: comment.is_anonymous,
        created_at: comment.created_at,
    }
}

/// What is sent out for a group. `creator` is the account of the group's
/// creator as far as it was found; a creator that was not found is shown as
/// an unknown user under the creator's id.
pub fn build_group_response(
    group: &Group,
    creator: Option<UserResponse>,
    members_count: i32,
    is_member: bool,
) -> (response: GroupResponse)
    ensures
        response.id@ == group.id@,
        response.name@ == group.name@,
        response.description == group.description,
        response.cover_image == group.cover_image,
        match creator {
            Some(account) => response.creator == account,
            None => {
                &&& response.creator.id@ == group.creator_id@
                &&& response.creator.email@.len() == 0
                &&& response.creator.username@ == "Unknown"@
                &&& response.creator.display_name@ == "Unknown User"@
                &&& response.creator.avatar_url is None
                &&& response.creator.bio is None
            },
        },
        response.is_private == group.is_private,
        response.members_count == members_count,
        response.is_member == is_member,
        response.created_at@ == group.created_at@,
{
    let shown = match creator {
        Some(account) => account,
        None => unknown_user(group.creator_id.as_str()),
    };
    GroupResponse {
        id: group.id.clone(),
        name: group.name.clone(),
        description: group.description.clone(),
        cover_image: group.cover_image.clone(),
        creator: shown,
        is_private: group.is_private,
        members_count,
        is_member,
        created_at: group.created_at.clone(),
    }
}

impl Friendship {
    /// The other side of this friendship as seen by `me`: the friend where
    /// `me` asked, and the one who asked otherwise.
    pub fn other_party(&self, me: &str) -> (other: &str)
        ensures
            other@ == if self.user_id@ == me@ {
                self.friend_id@
            } else {
                self.user_id@
            },
    {
        if same_text(self.user_id.as_str(), me) {
            self.friend_id.as_str()
        } else {
            self.user_id.as_str()
        }
    }
}

/// Whether `user_id` may delete `post`: only the author may.
pub fn may_delete_post(post: &Post, user_id: &str) -> (allowed: bool)
    ensures
        allowed == (post.user_id@ == user_id@),
{
    same_text(post.user_id.as_str(), user_id)
}

/// Whether `me` may ask `other` for friendship: everybody but oneself.
pub fn may_befriend(me: &str, other: &str) -> (allowed: bool)
    ensures
        allowed == (me@ != other@),
{
    !same_text(me, other)
}

impl Message {
    /// The other side of the conversation as seen by `me`: the receiver
    /// where `me` sent the message, and the sender otherwise.
    pub fn partner(&self, me: &str) -> (other: &str)
        ensures
            other@ == if self.sender_id@ == me@ {
                self.receiver_id@
            } else {
                self.sender_id@
            },
    {
        if same_text(self.sender_id.as_str(), me) {
            self.receiver_id.as_str()
        } else {
            self.sender_id.as_str()
        }
    }

    /// The message as it is sent out: every field as it is stored.
    pub fn into_response(self) -> (response: MessageResponse)
        ensures
            response@ == self@,
    {
        MessageResponse {
            id: self.id,
            sender_id: self.sender_id,
            receiver_id: self.receiver_id,
            encrypted_content: self.encrypted_content,
            iv: self.iv,
            created_at: self.created_at,
            is_read: self.is_read,
        }
    }
}

} // verus!
