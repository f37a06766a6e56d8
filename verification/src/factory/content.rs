//! The content of a content management system: each factory makes one kind.
use crate::text::{decimal, decimal_digits};
use crate::text_map::{distinct_keys, has_key, TextMap};
use vstd::prelude::*;
use vstd::string::StringExecFns;

verus! {

/// A piece of content.
pub trait Content {
    /// The line that creating content with `title` and `body` gives.
    spec fn creating_line(&self, title: Seq<char>, body: Seq<char>) -> Seq<char>;

    /// What displaying this content shows.
    spec fn shown(&self) -> Seq<char>;

    /// What is known about this content, each fact with its value.
    spec fn details(&self) -> Seq<(Seq<char>, Seq<char>)>;

    /// Announces the creation of content with `title` and `body` and returns
    /// the line that says so.
    fn create(&self, title: &str, body: &str) -> (line: String)
        ensures
            line@ == self.creating_line(title@, body@),
    ;

    /// Displays this content: the text that shows it.
    fn display(&self) -> (text: String)
        ensures
            text@ == self.shown(),
    ;

    /// What is known about this content, each fact with its value, no fact
    /// twice.
    fn metadata(&self) -> (metadata: TextMap)
        ensures
            metadata@ == self.details(),
            distinct_keys(metadata@),
    ;
}

/// A blog post.
#[derive(Debug)]
pub struct BlogPost {
    pub title: String,
    pub body: String,
    pub tags: Vec<String>,
}

impl BlogPost {
    /// A post with the title `title` and the text `body`, without tags.
    pub fn new(title: &str, body: &str) -> (post: BlogPost)
        ensures
            post.title@ == title@,
            post.body@ == body@,
            post.tags@.len() == 0,
    {
        BlogPost { title: title.to_string(), body: body.to_string(), tags: Vec::new() }
    }
}

impl Content for BlogPost {
    open spec fn creating_line(&self, title: Seq<char>, body: Seq<char>) -> Seq<char> {
        "Creating Blog Post: "@ + title + " - "@ + body
    }

    open spec fn shown(&self) -> Seq<char> {
        "Displaying Blog Post: "@ + self.title@ + " - "@ + self.body@
    }

    open spec fn details(&self) -> Seq<(Seq<char>, Seq<char>)> {
        seq![("type"@, "BlogPost"@), ("title"@, self.title@), ("body"@, self.body@)]
    }

    fn create(&self, title: &str, body: &str) -> (line: String) {
        let mut line = String::from_str("Creating Blog Post: ");
        line.append(title);
        line.append(" - ");
        line.append(body);
        line
    }

    fn display(&self) -> (text: String) {
        let mut text = String::from_str("Displaying Blog Post: ");
        text.append(self.title.as_str());
        text.append(" - ");
        text.append(self.body.as_str());
        text
    }

    fn metadata(&self) -> (metadata: TextMap) {
        let mut metadata = TextMap::new();
        metadata.insert("type", "BlogPost");
        proof {
            reveal_strlit("type");
            reveal_strlit("title");
            assert("type"@.len() != "title"@.len());
            assert(!has_key(metadata@, "title"@));
        }
        metadata.insert("title", self.title.as_str());
        proof {
            reveal_strlit("body");
            assert("type"@[0] != "body"@[0]);
            assert("title"@.len() != "body"@.len());
            assert(!has_key(metadata@, "body"@));
        }
        metadata.insert("body", self.body.as_str());
        metadata
    }
}

/// A video.
#[derive(Debug)]
pub struct Video {
    pub title: String,
    pub url: String,
    pub duration: u32,
}

impl Video {
    /// A video with the title `title` at `url` that runs `duration` seconds.
    pub fn new(title: &str, url: &str, duration: u32) -> (video: Video)
        ensures
            video.title@ == title@,
            video.url@ == url@,
            video.duration == duration,
    {
        Video { title: title.to_string(), url: url.to_string(), duration }
    }
}

impl Content for Video {
    open spec fn creating_line(&self, title: Seq<char>, body: Seq<char>) -> Seq<char> {
        "Creating Video: "@ + title + " - "@ + body
    }

    open spec fn shown(&self) -> Seq<char> {
        "Displaying video: "@ + self.title@ + "\nURL: "@ + self.url@ + "\nDuration: "@ + decimal_digits(
            self.duration as nat,
        ) + " seconds"@
    }

    open spec fn details(&self) -> Seq<(Seq<char>, Seq<char>)> {
        seq![
            ("type"@, "Video"@),
            ("title"@, self.title@),
            ("url"@, self.url@),
            ("duration"@, decimal_digits(self.duration as nat)),
        ]
    }

    fn create(&self, title: &str, body: &str) -> (line: String) {
        let mut line = String::from_str("Creating Video: ");
        line.append(title);
        line.append(" - ");
        line.append(body);
        line
    }

    fn display(&self) -> (text: String) {
        let mut text = String::from_str("Displaying video: ");
        text.append(self.title.as_str());
        text.append("\nURL: ");
        text.append(self.url.as_str());
        text.append("\nDuration: ");
        text.append(decimal(self.duration as u128).as_str());
        text.append(" seconds");
        text
    }

    fn metadata(&self) -> (metadata: TextMap) {
        let mut metadata = TextMap::new();
        metadata.insert("type", "Video");
        proof {
            reveal_strlit("type");
            reveal_strlit("title");
            assert("type"@.len() != "title"@.len());
            assert(!has_key(metadata@, "title"@));
        }
        metadata.insert("title", self.title.as_str());
        proof {
            reveal_strlit("url");
            assert("type"@.len() != "url"@.len());
            assert("title"@.len() != "url"@.len());
            assert(!has_key(metadata@, "url"@));
        }
        metadata.insert("url", self.url.as_str());
        proof {
            reveal_strlit("duration");
            assert("type"@.len() != "duration"@.len());
            assert("title"@.len() != "duration"@.len());
            assert("url"@.len() != "duration"@.len());
            assert(!has_key(metadata@, "duration"@));
        }
        metadata.insert("duration", decimal(self.duration as u128).as_str());
        metadata
    }
}

/// Makes content of one kind from a title and a body.
pub trait ContentFactory {
    /// The content this factory makes.
    type Product: Content;

    /// Makes content from `title` and `body`.
    fn create_content(&self, title: &str, body: &str) -> (content: Self::Product);
}

/// Makes blog posts.
#[derive(Debug)]
pub struct BlogPostFactory;

impl ContentFactory for BlogPostFactory {
    type Product = BlogPost;

    fn create_content(&self, title: &str, body: &str) -> (content: BlogPost)
        ensures
            content.title@ == title@,
            content.body@ == body@,
            content.tags@.len() == 0,
    {
        BlogPost::new(title, body)
    }
}

/// Makes videos. Every video it makes is one minute long and found at
/// `https://www.youtube.com/`; the body is not used.
#[derive(Debug)]
pub struct VideoFactory;

impl ContentFactory for VideoFactory {
    type Product = Video;

    fn create_content(&self, title: &str, body: &str) -> (content: Video)
        ensures
            content.title@ == title@,
            content.url@ == "https://www.youtube.com/"@,
            content.duration == 60,
    {
        let video_url = "https://www.youtube.com/";
        Video::new(title, video_url, 60)
    }
}

} // verus!
