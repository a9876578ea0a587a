//! Values for the `m.room.message` event's content.

use vstd::prelude::*;
use vstd::string::*;
use crate::codec::{
    lemma_lookup_empty, lemma_lookup_push, lemma_lookup_with_opt, optional, optional_spec,
    required, required_spec, with_opt, FromJson, ObjectWriter, ToJson,
};
use crate::json::{Json, JsonView};
use crate::text::{owned, str_eq};

verus! {

/// Information about an image.
#[derive(Debug, PartialEq)]
pub struct ImageInfo {
    /// The height of the image in pixels.
    pub h: u32,
    /// MIME type
    pub mimetype: String,
    /// Size, in bytes
    pub size: u32,
    /// The width of the image in pixels.
    pub w: u32,
}

/// The mathematical value of [`ImageInfo`].
pub ghost struct ImageInfoView {
    pub h: u32,
    pub mimetype: Seq<char>,
    pub size: u32,
    pub w: u32,
}

impl DeepView for ImageInfo {
    type V = ImageInfoView;

    open spec fn deep_view(&self) -> ImageInfoView {
        ImageInfoView {
            h: self.h.deep_view(),
            mimetype: self.mimetype.deep_view(),
            size: self.size.deep_view(),
            w: self.w.deep_view(),
        }
    }
}

impl FromJson for ImageInfo {
    open spec fn decoded(j: JsonView) -> Option<ImageInfoView> {
        if j is Object {
            match (
                required_spec::<u32>(j, "h"@),
                required_spec::<String>(j, "mimetype"@),
                required_spec::<u32>(j, "size"@),
                required_spec::<u32>(j, "w"@),
            ) {
                (Some(h), Some(mimetype), Some(size), Some(w)) => Some(
                    ImageInfoView { h, mimetype, size, w },
                ),
                _ => None,
            }
        } else {
            None
        }
    }

    fn from_json(j: &Json) -> (r: Option<ImageInfo>) {
        if !j.is_object() {
            return None;
        }
        let h = match required::<u32>(j, "h") {
            Some(x) => x,
            None => {
                return None;
            },
        };
        let mimetype = match required::<String>(j, "mimetype") {
            Some(x) => x,
            None => {
                return None;
            },
        };
        let size = match required::<u32>(j, "size") {
            Some(x) => x,
            None => {
                return None;
            },
        };
        let w = match required::<u32>(j, "w") {
            Some(x) => x,
            None => {
                return None;
            },
        };
        Some(ImageInfo { h, mimetype, size, w })
    }
}

impl ToJson for ImageInfo {
    open spec fn encoded(v: ImageInfoView) -> JsonView {
        let m1 = Seq::<(Seq<char>, JsonView)>::empty().push(("h"@, <u32>::encoded(v.h)));
        let m2 = m1.push(("mimetype"@, <String>::encoded(v.mimetype)));
        let m3 = m2.push(("size"@, <u32>::encoded(v.size)));
        let m4 = m3.push(("w"@, <u32>::encoded(v.w)));
        JsonView::Object(m4)
    }

    fn to_json(&self) -> (j: Json) {
        let mut w = ObjectWriter::new();
        w.put("h", &self.h);
        w.put("mimetype", &self.mimetype);
        w.put("size", &self.size);
        w.put("w", &self.w);
        w.finish()
    }
}

/// Information about a file.
#[derive(Debug, PartialEq)]
pub struct FileInfo {
    /// MIME type
    pub mimetype: String,
    /// Size, in bytes
    pub size: u32,
}

/// The mathematical value of [`FileInfo`].
pub ghost struct FileInfoView {
    pub mimetype: Seq<char>,
    pub size: u32,
}

impl DeepView for FileInfo {
    type V = FileInfoView;

    open spec fn deep_view(&self) -> FileInfoView {
        FileInfoView {
            mimetype: self.mimetype.deep_view(),
            size: self.size.deep_view(),
        }
    }
}

impl FromJson for FileInfo {
    open spec fn decoded(j: JsonView) -> Option<FileInfoView> {
        if j is Object {
            match (
                required_spec::<String>(j, "mimetype"@),
                required_spec::<u32>(j, "size"@),
            ) {
                (Some(mimetype), Some(size)) => Some(
                    FileInfoView { mimetype, size },
                ),
                _ => None,
            }
        } else {
            None
        }
    }

    fn from_json(j: &Json) -> (r: Option<FileInfo>) {
        if !j.is_object() {
            return None;
        }
        let mimetype = match required::<String>(j, "mimetype") {
            Some(x) => x,
            None => {
                return None;
            },
        };
        let size = match required::<u32>(j, "size") {
            Some(x) => x,
            None => {
                return None;
            },
        };
        Some(FileInfo { mimetype, size })
    }
}

impl ToJson for FileInfo {
    open spec fn encoded(v: FileInfoView) -> JsonView {
        let m1 = Seq::<(Seq<char>, JsonView)>::empty().push(
            ("mimetype"@, <String>::encoded(v.mimetype)),
        );
        let m2 = m1.push(("size"@, <u32>::encoded(v.size)));
        JsonView::Object(m2)
    }

    fn to_json(&self) -> (j: Json) {
        let mut w = ObjectWriter::new();
        w.put("mimetype", &self.mimetype);
        w.put("size", &self.size);
        w.finish()
    }
}

/// Information about an audio clip.
#[derive(Debug, PartialEq)]
pub struct AudioInfo {
    /// The duration of the audio in milliseconds.
    pub duration: u32,
    /// The mimetype of the audio e.g. `audio/aac`.
    pub mimetype: String,
    /// The size of the audio clip in bytes.
    pub size: u32,
}

/// The mathematical value of [`AudioInfo`].
pub ghost struct AudioInfoView {
    pub duration: u32,
    pub mimetype: Seq<char>,
    pub size: u32,
}

impl DeepView for AudioInfo {
    type V = AudioInfoView;

    open spec fn deep_view(&self) -> AudioInfoView {
        AudioInfoView {
            duration: self.duration.deep_view(),
            mimetype: self.mimetype.deep_view(),
            size: self.size.deep_view(),
        }
    }
}

impl FromJson for AudioInfo {
    open spec fn decoded(j: JsonView) -> Option<AudioInfoView> {
        if j is Object {
            match (
                required_spec::<u32>(j, "duration"@),
                required_spec::<String>(j, "mimetype"@),
                required_spec::<u32>(j, "size"@),
            ) {
                (Some(duration), Some(mimetype), Some(size)) => Some(
                    AudioInfoView { duration, mimetype, size },
                ),
                _ => None,
            }
        } else {
            None
        }
    }

    fn from_json(j: &Json) -> (r: Option<AudioInfo>) {
        if !j.is_object() {
            return None;
        }
        let duration = match required::<u32>(j, "duration") {
            Some(x) => x,
            None => {
                return None;
            },
        };
        let mimetype = match required::<String>(j, "mimetype") {
            Some(x) => x,
            None => {
                return None;
            },
        };
        let size = match required::<u32>(j, "size") {
            Some(x) => x,
            None => {
                return None;
            },
        };
        Some(AudioInfo { duration, mimetype, size })
    }
}

impl ToJson for AudioInfo {
    open spec fn encoded(v: AudioInfoView) -> JsonView {
        let m1 = Seq::<(Seq<char>, JsonView)>::empty().push(
            ("duration"@, <u32>::encoded(v.duration)),
        );
        let m2 = m1.push(("mimetype"@, <String>::encoded(v.mimetype)));
        let m3 = m2.push(("size"@, <u32>::encoded(v.size)));
        JsonView::Object(m3)
    }

    fn to_json(&self) -> (j: Json) {
        let mut w = ObjectWriter::new();
        w.put("duration", &self.duration);
        w.put("mimetype", &self.mimetype);
        w.put("size", &self.size);
        w.finish()
    }
}

/// Information about a video clip.
#[derive(Debug, PartialEq)]
pub struct VideoInfo {
    /// The duration of the video in milliseconds.
    pub duration: u32,
    /// The height of the video in pixels.
    pub h: u32,
    /// The width of the video in pixels.
    pub w: u32,
    /// The mimetype of the video e.g. `video/mp4`.
    pub mimetype: String,
    /// The size of the video in bytes.
    pub size: u32,
    /// The URL to an image thumbnail of the video clip.
    pub thumbnail_url: String,
    /// Metadata about the image referred to in thumbnail_url.
    pub thumbnail_info: ImageInfo,
}

/// The mathematical value of [`VideoInfo`].
pub ghost struct VideoInfoView {
    pub duration: u32,
    pub h: u32,
    pub w: u32,
    pub mimetype: Seq<char>,
    pub size: u32,
    pub thumbnail_url: Seq<char>,
    pub thumbnail_info: ImageInfoView,
}

impl DeepView for VideoInfo {
    type V = VideoInfoView;

    open spec fn deep_view(&self) -> VideoInfoView {
        VideoInfoView {
            duration: self.duration.deep_view(),
            h: self.h.deep_view(),
            w: self.w.deep_view(),
            mimetype: self.mimetype.deep_view(),
            size: self.size.deep_view(),
            thumbnail_url: self.thumbnail_url.deep_view(),
            thumbnail_info: self.thumbnail_info.deep_view(),
        }
    }
}

impl FromJson for VideoInfo {
    open spec fn decoded(j: JsonView) -> Option<VideoInfoView> {
        if j is Object {
            match (
                required_spec::<u32>(j, "duration"@),
                required_spec::<u32>(j, "h"@),
                required_spec::<u32>(j, "w"@),
                required_spec::<String>(j, "mimetype"@),
                required_spec::<u32>(j, "size"@),
                required_spec::<String>(j, "thumbnail_url"@),
                required_spec::<ImageInfo>(j, "thumbnail_info"@),
            ) {
                (
                    Some(duration),
                    Some(h),
                    Some(w),
                    Some(mimetype),
                    Some(size),
                    Some(thumbnail_url),
                    Some(thumbnail_info),
                ) => Some(
                    VideoInfoView { duration, h, w, mimetype, size, thumbnail_url, thumbnail_info },
                ),
                _ => None,
            }
        } else {
            None
        }
    }

    fn from_json(j: &Json) -> (r: Option<VideoInfo>) {
        if !j.is_object() {
            return None;
        }
        let duration = match required::<u32>(j, "duration") {
            Some(x) => x,
            None => {
                return None;
            },
        };
        let h = match required::<u32>(j, "h") {
            Some(x) => x,
            None => {
                return None;
            },
        };
        let w = match required::<u32>(j, "w") {
            Some(x) => x,
            None => {
                return None;
            },
        };
        let mimetype = match required::<String>(j, "mimetype") {
            Some(x) => x,
            None => {
                return None;
            },
        };
        let size = match required::<u32>(j, "size") {
            Some(x) => x,
            None => {
                return None;
            },
        };
        let thumbnail_url = match required::<String>(j, "thumbnail_url") {
            Some(x) => x,
            None => {
                return None;
            },
        };
        let thumbnail_info = match required::<ImageInfo>(j, "thumbnail_info") {
            Some(x) => x,
            None => {
                return None;
            },
        };
        Some(VideoInfo { duration, h, w, mimetype, size, thumbnail_url, thumbnail_info })
    }
}

impl ToJson for VideoInfo {
    open spec fn encoded(v: VideoInfoView) -> JsonView {
        let m1 = Seq::<(Seq<char>, JsonView)>::empty().push(
            ("duration"@, <u32>::encoded(v.duration)),
        );
        let m2 = m1.push(("h"@, <u32>::encoded(v.h)));
        let m3 = m2.push(("w"@, <u32>::encoded(v.w)));
        let m4 = m3.push(("mimetype"@, <String>::encoded(v.mimetype)));
        let m5 = m4.push(("size"@, <u32>::encoded(v.size)));
        let m6 = m5.push(("thumbnail_url"@, <String>::encoded(v.thumbnail_url)));
        let m7 = m6.push(("thumbnail_info"@, <ImageInfo>::encoded(v.thumbnail_info)));
        JsonView::Object(m7)
    }

    fn to_json(&self) -> (j: Json) {
        let mut w = ObjectWriter::new();
        w.put("duration", &self.duration);
        w.put("h", &self.h);
        w.put("w", &self.w);
        w.put("mimetype", &self.mimetype);
        w.put("size", &self.size);
        w.put("thumbnail_url", &self.thumbnail_url);
        w.put("thumbnail_info", &self.thumbnail_info);
        w.finish()
    }
}

/// A message sent to a room.
///
/// On the wire a message is an object whose `msgtype` member names the variant. A member
/// that is absent is left out when the message is written.
#[derive(Debug, PartialEq)]
#[allow(inconsistent_fields)]
pub enum Message {
    /// This message is the most basic message and is used to represent text.
    Text {
        /// The body of the message.
        body: String,
        /// The formatted body of the message (if the message is formatted).
        formatted_body: Option<String>,
        /// The format of the formatted body (if the message is formatted).
        format: Option<String>,
    },
    /// A m.notice message should be considered similar to a plain m.text message except
    /// that clients should visually distinguish it in some way.
    /// It is intended to be used by automated clients, such as bots, bridges, and other
    /// entities, rather than humans.
    Notice {
        /// The notice text to send.
        body: String,
        /// The formatted body of the message (if the message is formatted).
        formatted_body: Option<String>,
        /// The format of the formatted body (if the message is formatted).
        format: Option<String>,
    },
    /// This message represents a single image and an optional thumbnail.
    Image {
        /// A textual representation of the image. This could be the alt text of the image,
        /// the filename of the image, or some kind of content description for accessibility
        /// e.g. 'image attachment'.
        body: String,
        /// The URL to the image.
        url: String,
        /// Metadata about the image referred to in url.
        info: Option<ImageInfo>,
        /// The URL to the thumbnail of the image.
        thumbnail_url: Option<String>,
        /// Metadata about the image referred to in thumbnail_url.
        thumbnail_info: Option<ImageInfo>,
    },
    /// This message is similar to m.text except that the sender is 'performing'
    /// the action contained in the body key, similar to /me in IRC.
    Emote {
        /// The emote action to perform.
        body: String,
    },
    /// This message represents a generic file.
    File {
        /// A human-readable description of the file. This is recommended to be
        /// the filename of the original upload.
        body: String,
        /// The original filename of the uploaded file.
        filename: String,
        /// Information about the file referred to in url.
        info: Option<FileInfo>,
        /// Metadata about the image referred to in thumbnail_url.
        thumbnail_info: Option<ImageInfo>,
        /// The URL to the thumbnail of the file.
        thumbnail_url: Option<String>,
        /// The URL to the file.
        url: String,
    },
    /// This message represents a real-world location.
    Location {
        /// A description of the location e.g. 'Big Ben, London, UK', or some
        /// kind of content description for accessibility e.g. 'location
        /// attachment'.
        body: String,
        /// A geo URI representing this location.
        geo_uri: String,
    },
    /// This message represents a single audio clip.
    Audio {
        /// A description of the audio e.g. 'Bee Gees - Stayin' Alive', or some
        /// kind of content description for accessibility e.g. 'audio
        /// attachment'.
        body: String,
        /// The URL to the audio clip.
        url: String,
        /// Metadata for the audio clip referred to in url.
        info: Option<AudioInfo>,
    },
    /// This message represents a single video clip.
    Video {
        /// A description of the video e.g. 'Gangnam style', or some kind of
        /// content description for accessibility e.g. 'video attachment'.
        body: String,
        /// The URL to the video clip.
        url: String,
        /// Metadata about the video clip referred to in url.
        info: Option<VideoInfo>,
    },
}

/// The mathematical value of [`Message`].
#[allow(inconsistent_fields)]
pub ghost enum MessageView {
    Text { body: Seq<char>, formatted_body: Option<Seq<char>>, format: Option<Seq<char>> },
    Notice { body: Seq<char>, formatted_body: Option<Seq<char>>, format: Option<Seq<char>> },
    Image {
        body: Seq<char>,
        url: Seq<char>,
        info: Option<ImageInfoView>,
        thumbnail_url: Option<Seq<char>>,
        thumbnail_info: Option<ImageInfoView>,
    },
    Emote { body: Seq<char> },
    File {
        body: Seq<char>,
        filename: Seq<char>,
        info: Option<FileInfoView>,
        thumbnail_info: Option<ImageInfoView>,
        thumbnail_url: Option<Seq<char>>,
        url: Seq<char>,
    },
    Location { body: Seq<char>, geo_uri: Seq<char> },
    Audio { body: Seq<char>, url: Seq<char>, info: Option<AudioInfoView> },
    Video { body: Seq<char>, url: Seq<char>, info: Option<VideoInfoView> },
}

impl DeepView for Message {
    type V = MessageView;

    open spec fn deep_view(&self) -> MessageView {
        match self {
            Message::Text { body, formatted_body, format } => MessageView::Text {
                body: body.deep_view(),
                formatted_body: formatted_body.deep_view(),
                format: format.deep_view(),
            },
            Message::Notice { body, formatted_body, format } => MessageView::Notice {
                body: body.deep_view(),
                formatted_body: formatted_body.deep_view(),
                format: format.deep_view(),
            },
            Message::Image {
                body,
                url,
                info,
                thumbnail_url,
                thumbnail_info,
            } => MessageView::Image {
                body: body.deep_view(),
                url: url.deep_view(),
                info: info.deep_view(),
                thumbnail_url: thumbnail_url.deep_view(),
                thumbnail_info: thumbnail_info.deep_view(),
            },
            Message::Emote { body } => MessageView::Emote {
                body: body.deep_view(),
            },
            Message::File {
                body,
                filename,
                info,
                thumbnail_info,
                thumbnail_url,
                url,
            } => MessageView::File {
                body: body.deep_view(),
                filename: filename.deep_view(),
                info: info.deep_view(),
                thumbnail_info: thumbnail_info.deep_view(),
                thumbnail_url: thumbnail_url.deep_view(),
                url: url.deep_view(),
            },
            Message::Location { body, geo_uri } => MessageView::Location {
                body: body.deep_view(),
                geo_uri: geo_uri.deep_view(),
            },
            Message::Audio { body, url, info } => MessageView::Audio {
                body: body.deep_view(),
                url: url.deep_view(),
                info: info.deep_view(),
            },
            Message::Video { body, url, info } => MessageView::Video {
                body: body.deep_view(),
                url: url.deep_view(),
                info: info.deep_view(),
            },
        }
    }
}

impl MessageView {
    /// The value of the `msgtype` member that marks each variant.
    pub open spec fn tag(self) -> Seq<char> {
        match self {
            MessageView::Text { .. } => "m.text"@,
            MessageView::Notice { .. } => "m.notice"@,
            MessageView::Image { .. } => "m.image"@,
            MessageView::Emote { .. } => "m.emote"@,
            MessageView::File { .. } => "m.file"@,
            MessageView::Location { .. } => "m.location"@,
            MessageView::Audio { .. } => "m.audio"@,
            MessageView::Video { .. } => "m.video"@,
        }
    }

    /// An object read as the variant `Text`.
    pub open spec fn decoded_text(j: JsonView) -> Option<MessageView> {
        match (
            required_spec::<String>(j, "body"@),
            optional_spec::<String>(j, "formatted_body"@),
            optional_spec::<String>(j, "format"@),
        ) {
            (Some(body), Some(formatted_body), Some(format)) => Some(
                MessageView::Text { body, formatted_body, format },
            ),
            _ => None,
        }
    }

    /// An object read as the variant `Notice`.
    pub open spec fn decoded_notice(j: JsonView) -> Option<MessageView> {
        match (
            required_spec::<String>(j, "body"@),
            optional_spec::<String>(j, "formatted_body"@),
            optional_spec::<String>(j, "format"@),
        ) {
            (Some(body), Some(formatted_body), Some(format)) => Some(
                MessageView::Notice { body, formatted_body, format },
            ),
            _ => None,
        }
    }

    /// An object read as the variant `Image`.
    pub open spec fn decoded_image(j: JsonView) -> Option<MessageView> {
        match (
            required_spec::<String>(j, "body"@),
            required_spec::<String>(j, "url"@),
            optional_spec::<ImageInfo>(j, "info"@),
            optional_spec::<String>(j, "thumbnail_url"@),
            optional_spec::<ImageInfo>(j, "thumbnail_info"@),
        ) {
            (Some(body), Some(url), Some(info), Some(thumbnail_url), Some(thumbnail_info)) => Some(
                MessageView::Image { body, url, info, thumbnail_url, thumbnail_info },
            ),
            _ => None,
        }
    }

    /// An object read as the variant `Emote`.
    pub open spec fn decoded_emote(j: JsonView) -> Option<MessageView> {
        match required_spec::<String>(j, "body"@) {
            Some(body) => Some(MessageView::Emote { body }),
            None => None,
        }
    }

    /// An object read as the variant `File`.
    pub open spec fn decoded_file(j: JsonView) -> Option<MessageView> {
        match (
            required_spec::<String>(j, "body"@),
            required_spec::<String>(j, "filename"@),
            optional_spec::<FileInfo>(j, "info"@),
            optional_spec::<ImageInfo>(j, "thumbnail_info"@),
            optional_spec::<String>(j, "thumbnail_url"@),
            required_spec::<String>(j, "url"@),
        ) {
            (
                Some(body),
                Some(filename),
                Some(info),
                Some(thumbnail_info),
                Some(thumbnail_url),
                Some(url),
            ) => Some(
                MessageView::File { body, filename, info, thumbnail_info, thumbnail_url, url },
            ),
            _ => None,
        }
    }

    /// An object read as the variant `Location`.
    pub open spec fn decoded_location(j: JsonView) -> Option<MessageView> {
        match (
            required_spec::<String>(j, "body"@),
            required_spec::<String>(j, "geo_uri"@),
        ) {
            (Some(body), Some(geo_uri)) => Some(
                MessageView::Location { body, geo_uri },
            ),
            _ => None,
        }
    }

    /// An object read as the variant `Audio`.
    pub open spec fn decoded_audio(j: JsonView) -> Option<MessageView> {
        match (
            required_spec::<String>(j, "body"@),
            required_spec::<String>(j, "url"@),
            optional_spec::<AudioInfo>(j, "info"@),
        ) {
            (Some(body), Some(url), Some(info)) => Some(
                MessageView::Audio { body, url, info },
            ),
            _ => None,
        }
    }

    /// An object read as the variant `Video`.
    pub open spec fn decoded_video(j: JsonView) -> Option<MessageView> {
        match (
            required_spec::<String>(j, "body"@),
            required_spec::<String>(j, "url"@),
            optional_spec::<VideoInfo>(j, "info"@),
        ) {
            (Some(body), Some(url), Some(info)) => Some(
                MessageView::Video { body, url, info },
            ),
            _ => None,
        }
    }
}

impl Message {
    fn read_text(j: &Json) -> (r: Option<Message>)
        ensures
            r.deep_view() == MessageView::decoded_text(j@),
    {
        let body = match required::<String>(j, "body") {
            Some(x) => x,
            None => {
                return None;
            },
        };
        let formatted_body = match optional::<String>(j, "formatted_body") {
            Some(x) => x,
            None => {
                return None;
            },
        };
        let format = match optional::<String>(j, "format") {
            Some(x) => x,
            None => {
                return None;
            },
        };
        Some(Message::Text { body, formatted_body, format })
    }

    fn read_notice(j: &Json) -> (r: Option<Message>)
        ensures
            r.deep_view() == MessageView::decoded_notice(j@),
    {
        let body = match required::<String>(j, "body") {
            Some(x) => x,
            None => {
                return None;
            },
        };
        let formatted_body = match optional::<String>(j, "formatted_body") {
            Some(x) => x,
            None => {
                return None;
            },
        };
        let format = match optional::<String>(j, "format") {
            Some(x) => x,
            None => {
                return None;
            },
        };
        Some(Message::Notice { body, formatted_body, format })
    }

    fn read_image(j: &Json) -> (r: Option<Message>)
        ensures
            r.deep_view() == MessageView::decoded_image(j@),
    {
        let body = match required::<String>(j, "body") {
            Some(x) => x,
            None => {
                return None;
            },
        };
        let url = match required::<String>(j, "url") {
            Some(x) => x,
            None => {
                return None;
            },
        };
        let info = match optional::<ImageInfo>(j, "info") {
            Some(x) => x,
            None => {
                return None;
            },
        };
        let thumbnail_url = match optional::<String>(j, "thumbnail_url") {
            Some(x) => x,
            None => {
                return None;
            },
        };
        let thumbnail_info = match optional::<ImageInfo>(j, "thumbnail_info") {
            Some(x) => x,
            None => {
                return None;
            },
        };
        Some(Message::Image { body, url, info, thumbnail_url, thumbnail_info })
    }

    fn read_emote(j: &Json) -> (r: Option<Message>)
        ensures
            r.deep_view() == MessageView::decoded_emote(j@),
    {
        let body = match required::<String>(j, "body") {
            Some(x) => x,
            None => {
                return None;
            },
        };
        Some(Message::Emote { body })
    }

    fn read_file(j: &Json) -> (r: Option<Message>)
        ensures
            r.deep_view() == MessageView::decoded_file(j@),
    {
        let body = match required::<String>(j, "body") {
            Some(x) => x,
            None => {
                return None;
            },
        };
        let filename = match required::<String>(j, "filename") {
            Some(x) => x,
            None => {
                return None;
            },
        };
        let info = match optional::<FileInfo>(j, "info") {
            Some(x) => x,
            None => {
                return None;
            },
        };
        let thumbnail_info = match optional::<ImageInfo>(j, "thumbnail_info") {
            Some(x) => x,
            None => {
                return None;
            },
        };
        let thumbnail_url = match optional::<String>(j, "thumbnail_url") {
            Some(x) => x,
            None => {
                return None;
            },
        };
        let url = match required::<String>(j, "url") {
            Some(x) => x,
            None => {
                return None;
            },
        };
        Some(Message::File { body, filename, info, thumbnail_info, thumbnail_url, url })
    }

    fn read_location(j: &Json) -> (r: Option<Message>)
        ensures
            r.deep_view() == MessageView::decoded_location(j@),
    {
        let body = match required::<String>(j, "body") {
            Some(x) => x,
            None => {
                return None;
            },
        };
        let geo_uri = match required::<String>(j, "geo_uri") {
            Some(x) => x,
            None => {
                return None;
            },
        };
        Some(Message::Location { body, geo_uri })
    }

    fn read_audio(j: &Json) -> (r: Option<Message>)
        ensures
            r.deep_view() == MessageView::decoded_audio(j@),
    {
        let body = match required::<String>(j, "body") {
            Some(x) => x,
            None => {
                return None;
            },
        };
        let url = match required::<String>(j, "url") {
            Some(x) => x,
            None => {
                return None;
            },
        };
        let info = match optional::<AudioInfo>(j, "info") {
            Some(x) => x,
            None => {
                return None;
            },
        };
        Some(Message::Audio { body, url, info })
    }

    fn read_video(j: &Json) -> (r: Option<Message>)
        ensures
            r.deep_view() == MessageView::decoded_video(j@),
    {
        let body = match required::<String>(j, "body") {
            Some(x) => x,
            None => {
                return None;
            },
        };
        let url = match required::<String>(j, "url") {
            Some(x) => x,
            None => {
                return None;
            },
        };
        let info = match optional::<VideoInfo>(j, "info") {
            Some(x) => x,
            None => {
                return None;
            },
        };
        Some(Message::Video { body, url, info })
    }

}

impl FromJson for Message {
    open spec fn decoded(j: JsonView) -> Option<MessageView> {
        match required_spec::<String>(j, "msgtype"@) {
            Some(tag) => {
                if tag == "m.text"@ {
                    MessageView::decoded_text(j)
                } else if tag == "m.notice"@ {
                    MessageView::decoded_notice(j)
                } else if tag == "m.image"@ {
                    MessageView::decoded_image(j)
                } else if tag == "m.emote"@ {
                    MessageView::decoded_emote(j)
                } else if tag == "m.file"@ {
                    MessageView::decoded_file(j)
                } else if tag == "m.location"@ {
                    MessageView::decoded_location(j)
                } else if tag == "m.audio"@ {
                    MessageView::decoded_audio(j)
                } else if tag == "m.video"@ {
                    MessageView::decoded_video(j)
                } else {
                    None
                }
            },
            None => None,
        }
    }

    fn from_json(j: &Json) -> (r: Option<Message>) {
        let tag = match required::<String>(j, "msgtype") {
            Some(x) => x,
            None => {
                return None;
            },
        };
        if str_eq(tag.as_str(), "m.text") {
            Message::read_text(j)
        } else if str_eq(tag.as_str(), "m.notice") {
            Message::read_notice(j)
        } else if str_eq(tag.as_str(), "m.image") {
            Message::read_image(j)
        } else if str_eq(tag.as_str(), "m.emote") {
            Message::read_emote(j)
        } else if str_eq(tag.as_str(), "m.file") {
            Message::read_file(j)
        } else if str_eq(tag.as_str(), "m.location") {
            Message::read_location(j)
        } else if str_eq(tag.as_str(), "m.audio") {
            Message::read_audio(j)
        } else if str_eq(tag.as_str(), "m.video") {
            Message::read_video(j)
        } else {
            None
        }
    }
}

impl ToJson for Message {
    open spec fn encoded(v: MessageView) -> JsonView {
        let m0 = Seq::<(Seq<char>, JsonView)>::empty().push(("msgtype"@, JsonView::Str(v.tag())));
        match v {
            MessageView::Text { body, formatted_body, format } => {
                let m1 = m0.push(("body"@, <String>::encoded(body)));
                let m2 = with_opt::<String>(m1, "formatted_body"@, formatted_body);
                let m3 = with_opt::<String>(m2, "format"@, format);
                JsonView::Object(m3)
            },
            MessageView::Notice { body, formatted_body, format } => {
                let m1 = m0.push(("body"@, <String>::encoded(body)));
                let m2 = with_opt::<String>(m1, "formatted_body"@, formatted_body);
                let m3 = with_opt::<String>(m2, "format"@, format);
                JsonView::Object(m3)
            },
            MessageView::Image { body, url, info, thumbnail_url, thumbnail_info } => {
                let m1 = m0.push(("body"@, <String>::encoded(body)));
                let m2 = m1.push(("url"@, <String>::encoded(url)));
                let m3 = with_opt::<ImageInfo>(m2, "info"@, info);
                let m4 = with_opt::<String>(m3, "thumbnail_url"@, thumbnail_url);
                let m5 = with_opt::<ImageInfo>(m4, "thumbnail_info"@, thumbnail_info);
                JsonView::Object(m5)
            },
            MessageView::Emote { body } => {
                let m1 = m0.push(("body"@, <String>::encoded(body)));
                JsonView::Object(m1)
            },
            MessageView::File { body, filename, info, thumbnail_info, thumbnail_url, url } => {
                let m1 = m0.push(("body"@, <String>::encoded(body)));
                let m2 = m1.push(("filename"@, <String>::encoded(filename)));
                let m3 = with_opt::<FileInfo>(m2, "info"@, info);
                let m4 = with_opt::<ImageInfo>(m3, "thumbnail_info"@, thumbnail_info);
                let m5 = with_opt::<String>(m4, "thumbnail_url"@, thumbnail_url);
                let m6 = m5.push(("url"@, <String>::encoded(url)));
                JsonView::Object(m6)
            },
            MessageView::Location { body, geo_uri } => {
                let m1 = m0.push(("body"@, <String>::encoded(body)));
                let m2 = m1.push(("geo_uri"@, <String>::encoded(geo_uri)));
                JsonView::Object(m2)
            },
            MessageView::Audio { body, url, info } => {
                let m1 = m0.push(("body"@, <String>::encoded(body)));
                let m2 = m1.push(("url"@, <String>::encoded(url)));
                let m3 = with_opt::<AudioInfo>(m2, "info"@, info);
                JsonView::Object(m3)
            },
            MessageView::Video { body, url, info } => {
                let m1 = m0.push(("body"@, <String>::encoded(body)));
                let m2 = m1.push(("url"@, <String>::encoded(url)));
                let m3 = with_opt::<VideoInfo>(m2, "info"@, info);
                JsonView::Object(m3)
            },
        }
    }

    fn to_json(&self) -> (j: Json) {
        let mut w = ObjectWriter::new();
        match self {
            Message::Text { body, formatted_body, format } => {
                w.put_json("msgtype", Json::Str(owned("m.text")));
                w.put("body", body);
                w.put_opt("formatted_body", formatted_body);
                w.put_opt("format", format);
            },
            Message::Notice { body, formatted_body, format } => {
                w.put_json("msgtype", Json::Str(owned("m.notice")));
                w.put("body", body);
                w.put_opt("formatted_body", formatted_body);
                w.put_opt("format", format);
            },
            Message::Image { body, url, info, thumbnail_url, thumbnail_info } => {
                w.put_json("msgtype", Json::Str(owned("m.image")));
                w.put("body", body);
                w.put("url", url);
                w.put_opt("info", info);
                w.put_opt("thumbnail_url", thumbnail_url);
                w.put_opt("thumbnail_info", thumbnail_info);
            },
            Message::Emote { body } => {
                w.put_json("msgtype", Json::Str(owned("m.emote")));
                w.put("body", body);
            },
            Message::File { body, filename, info, thumbnail_info, thumbnail_url, url } => {
                w.put_json("msgtype", Json::Str(owned("m.file")));
                w.put("body", body);
                w.put("filename", filename);
                w.put_opt("info", info);
                w.put_opt("thumbnail_info", thumbnail_info);
                w.put_opt("thumbnail_url", thumbnail_url);
                w.put("url", url);
            },
            Message::Location { body, geo_uri } => {
                w.put_json("msgtype", Json::Str(owned("m.location")));
                w.put("body", body);
                w.put("geo_uri", geo_uri);
            },
            Message::Audio { body, url, info } => {
                w.put_json("msgtype", Json::Str(owned("m.audio")));
                w.put("body", body);
                w.put("url", url);
                w.put_opt("info", info);
            },
            Message::Video { body, url, info } => {
                w.put_json("msgtype", Json::Str(owned("m.video")));
                w.put("body", body);
                w.put("url", url);
                w.put_opt("info", info);
            },
        }
        w.finish()
    }
}

/// Writing the metadata of an image and reading it again gives it back.
pub proof fn lemma_image_info_round_trip(v: ImageInfoView)
    ensures
        ImageInfo::decoded(ImageInfo::encoded(v)) == Some(v),
{
    reveal_strlit("h");
    reveal_strlit("mimetype");
    reveal_strlit("size");
    reveal_strlit("w");
    assert("h"@.len() != "mimetype"@.len());
    assert("h"@.len() != "size"@.len());
    assert("h"@[0] != "w"@[0]);
    assert("mimetype"@.len() != "size"@.len());
    assert("mimetype"@.len() != "w"@.len());
    assert("size"@.len() != "w"@.len());
    let m0 = Seq::<(Seq<char>, JsonView)>::empty();
    let m1 = m0.push(("h"@, <u32>::encoded(v.h)));
    let m2 = m1.push(("mimetype"@, <String>::encoded(v.mimetype)));
    let m3 = m2.push(("size"@, <u32>::encoded(v.size)));
    let m4 = m3.push(("w"@, <u32>::encoded(v.w)));
    lemma_lookup_push(m3, "w"@, <u32>::encoded(v.w), "h"@);
    lemma_lookup_push(m2, "size"@, <u32>::encoded(v.size), "h"@);
    lemma_lookup_push(m1, "mimetype"@, <String>::encoded(v.mimetype), "h"@);
    lemma_lookup_push(m0, "h"@, <u32>::encoded(v.h), "h"@);
    lemma_lookup_empty("h"@);
    lemma_lookup_push(m3, "w"@, <u32>::encoded(v.w), "mimetype"@);
    lemma_lookup_push(m2, "size"@, <u32>::encoded(v.size), "mimetype"@);
    lemma_lookup_push(m1, "mimetype"@, <String>::encoded(v.mimetype), "mimetype"@);
    lemma_lookup_push(m0, "h"@, <u32>::encoded(v.h), "mimetype"@);
    lemma_lookup_empty("mimetype"@);
    lemma_lookup_push(m3, "w"@, <u32>::encoded(v.w), "size"@);
    lemma_lookup_push(m2, "size"@, <u32>::encoded(v.size), "size"@);
    lemma_lookup_push(m1, "mimetype"@, <String>::encoded(v.mimetype), "size"@);
    lemma_lookup_push(m0, "h"@, <u32>::encoded(v.h), "size"@);
    lemma_lookup_empty("size"@);
    lemma_lookup_push(m3, "w"@, <u32>::encoded(v.w), "w"@);
    lemma_lookup_push(m2, "size"@, <u32>::encoded(v.size), "w"@);
    lemma_lookup_push(m1, "mimetype"@, <String>::encoded(v.mimetype), "w"@);
    lemma_lookup_push(m0, "h"@, <u32>::encoded(v.h), "w"@);
    lemma_lookup_empty("w"@);
}

/// Writing the metadata of a file and reading it again gives it back.
pub proof fn lemma_file_info_round_trip(v: FileInfoView)
    ensures
        FileInfo::decoded(FileInfo::encoded(v)) == Some(v),
{
    reveal_strlit("mimetype");
    reveal_strlit("size");
    assert("mimetype"@.len() != "size"@.len());
    let m0 = Seq::<(Seq<char>, JsonView)>::empty();
    let m1 = m0.push(("mimetype"@, <String>::encoded(v.mimetype)));
    let m2 = m1.push(("size"@, <u32>::encoded(v.size)));
    lemma_lookup_push(m1, "size"@, <u32>::encoded(v.size), "mimetype"@);
    lemma_lookup_push(m0, "mimetype"@, <String>::encoded(v.mimetype), "mimetype"@);
    lemma_lookup_empty("mimetype"@);
    lemma_lookup_push(m1, "size"@, <u32>::encoded(v.size), "size"@);
    lemma_lookup_push(m0, "mimetype"@, <String>::encoded(v.mimetype), "size"@);
    lemma_lookup_empty("size"@);
}

/// Writing the metadata of an audio clip and reading it again gives it back.
pub proof fn lemma_audio_info_round_trip(v: AudioInfoView)
    ensures
        AudioInfo::decoded(AudioInfo::encoded(v)) == Some(v),
{
    reveal_strlit("duration");
    reveal_strlit("mimetype");
    reveal_strlit("size");
    assert("duration"@[0] != "mimetype"@[0]);
    assert("duration"@.len() != "size"@.len());
    assert("mimetype"@.len() != "size"@.len());
    let m0 = Seq::<(Seq<char>, JsonView)>::empty();
    let m1 = m0.push(("duration"@, <u32>::encoded(v.duration)));
    let m2 = m1.push(("mimetype"@, <String>::encoded(v.mimetype)));
    let m3 = m2.push(("size"@, <u32>::encoded(v.size)));
    lemma_lookup_push(m2, "size"@, <u32>::encoded(v.size), "duration"@);
    lemma_lookup_push(m1, "mimetype"@, <String>::encoded(v.mimetype), "duration"@);
    lemma_lookup_push(m0, "duration"@, <u32>::encoded(v.duration), "duration"@);
    lemma_lookup_empty("duration"@);
    lemma_lookup_push(m2, "size"@, <u32>::encoded(v.size), "mimetype"@);
    lemma_lookup_push(m1, "mimetype"@, <String>::encoded(v.mimetype), "mimetype"@);
    lemma_lookup_push(m0, "duration"@, <u32>::encoded(v.duration), "mimetype"@);
    lemma_lookup_empty("mimetype"@);
    lemma_lookup_push(m2, "size"@, <u32>::encoded(v.size), "size"@);
    lemma_lookup_push(m1, "mimetype"@, <String>::encoded(v.mimetype), "size"@);
    lemma_lookup_push(m0, "duration"@, <u32>::encoded(v.duration), "size"@);
    lemma_lookup_empty("size"@);
}

/// Writing the metadata of a video clip and reading it again gives it back.
pub proof fn lemma_video_info_round_trip(v: VideoInfoView)
    ensures
        VideoInfo::decoded(VideoInfo::encoded(v)) == Some(v),
{
    reveal_strlit("duration");
    reveal_strlit("h");
    reveal_strlit("w");
    reveal_strlit("mimetype");
    reveal_strlit("size");
    reveal_strlit("thumbnail_url");
    reveal_strlit("thumbnail_info");
    assert("duration"@.len() != "h"@.len());
    assert("duration"@.len() != "w"@.len());
    assert("duration"@[0] != "mimetype"@[0]);
    assert("duration"@.len() != "size"@.len());
    assert("duration"@.len() != "thumbnail_url"@.len());
    assert("duration"@.len() != "thumbnail_info"@.len());
    assert("h"@[0] != "w"@[0]);
    assert("h"@.len() != "mimetype"@.len());
    assert("h"@.len() != "size"@.len());
    assert("h"@.len() != "thumbnail_url"@.len());
    assert("h"@.len() != "thumbnail_info"@.len());
    assert("w"@.len() != "mimetype"@.len());
    assert("w"@.len() != "size"@.len());
    assert("w"@.len() != "thumbnail_url"@.len());
    assert("w"@.len() != "thumbnail_info"@.len());
    assert("mimetype"@.len() != "size"@.len());
    assert("mimetype"@.len() != "thumbnail_url"@.len());
    assert("mimetype"@.len() != "thumbnail_info"@.len());
    assert("size"@.len() != "thumbnail_url"@.len());
    assert("size"@.len() != "thumbnail_info"@.len());
    assert("thumbnail_url"@.len() != "thumbnail_info"@.len());
    let m0 = Seq::<(Seq<char>, JsonView)>::empty();
    let m1 = m0.push(("duration"@, <u32>::encoded(v.duration)));
    let m2 = m1.push(("h"@, <u32>::encoded(v.h)));
    let m3 = m2.push(("w"@, <u32>::encoded(v.w)));
    let m4 = m3.push(("mimetype"@, <String>::encoded(v.mimetype)));
    let m5 = m4.push(("size"@, <u32>::encoded(v.size)));
    let m6 = m5.push(("thumbnail_url"@, <String>::encoded(v.thumbnail_url)));
    let m7 = m6.push(("thumbnail_info"@, <ImageInfo>::encoded(v.thumbnail_info)));
    lemma_lookup_push(m6, "thumbnail_info"@, <ImageInfo>::encoded(v.thumbnail_info), "duration"@);
    lemma_lookup_push(m5, "thumbnail_url"@, <String>::encoded(v.thumbnail_url), "duration"@);
    lemma_lookup_push(m4, "size"@, <u32>::encoded(v.size), "duration"@);
    lemma_lookup_push(m3, "mimetype"@, <String>::encoded(v.mimetype), "duration"@);
    lemma_lookup_push(m2, "w"@, <u32>::encoded(v.w), "duration"@);
    lemma_lookup_push(m1, "h"@, <u32>::encoded(v.h), "duration"@);
    lemma_lookup_push(m0, "duration"@, <u32>::encoded(v.duration), "duration"@);
    lemma_lookup_empty("duration"@);
    lemma_lookup_push(m6, "thumbnail_info"@, <ImageInfo>::encoded(v.thumbnail_info), "h"@);
    lemma_lookup_push(m5, "thumbnail_url"@, <String>::encoded(v.thumbnail_url), "h"@);
    lemma_lookup_push(m4, "size"@, <u32>::encoded(v.size), "h"@);
    lemma_lookup_push(m3, "mimetype"@, <String>::encoded(v.mimetype), "h"@);
    lemma_lookup_push(m2, "w"@, <u32>::encoded(v.w), "h"@);
    lemma_lookup_push(m1, "h"@, <u32>::encoded(v.h), "h"@);
    lemma_lookup_push(m0, "duration"@, <u32>::encoded(v.duration), "h"@);
    lemma_lookup_empty("h"@);
    lemma_lookup_push(m6, "thumbnail_info"@, <ImageInfo>::encoded(v.thumbnail_info), "w"@);
    lemma_lookup_push(m5, "thumbnail_url"@, <String>::encoded(v.thumbnail_url), "w"@);
    lemma_lookup_push(m4, "size"@, <u32>::encoded(v.size), "w"@);
    lemma_lookup_push(m3, "mimetype"@, <String>::encoded(v.mimetype), "w"@);
    lemma_lookup_push(m2, "w"@, <u32>::encoded(v.w), "w"@);
    lemma_lookup_push(m1, "h"@, <u32>::encoded(v.h), "w"@);
    lemma_lookup_push(m0, "duration"@, <u32>::encoded(v.duration), "w"@);
    lemma_lookup_empty("w"@);
    lemma_lookup_push(m6, "thumbnail_info"@, <ImageInfo>::encoded(v.thumbnail_info), "mimetype"@);
    lemma_lookup_push(m5, "thumbnail_url"@, <String>::encoded(v.thumbnail_url), "mimetype"@);
    lemma_lookup_push(m4, "size"@, <u32>::encoded(v.size), "mimetype"@);
    lemma_lookup_push(m3, "mimetype"@, <String>::encoded(v.mimetype), "mimetype"@);
    lemma_lookup_push(m2, "w"@, <u32>::encoded(v.w), "mimetype"@);
    lemma_lookup_push(m1, "h"@, <u32>::encoded(v.h), "mimetype"@);
    lemma_lookup_push(m0, "duration"@, <u32>::encoded(v.duration), "mimetype"@);
    lemma_lookup_empty("mimetype"@);
    lemma_lookup_push(m6, "thumbnail_info"@, <ImageInfo>::encoded(v.thumbnail_info), "size"@);
    lemma_lookup_push(m5, "thumbnail_url"@, <String>::encoded(v.thumbnail_url), "size"@);
    lemma_lookup_push(m4, "size"@, <u32>::encoded(v.size), "size"@);
    lemma_lookup_push(m3, "mimetype"@, <String>::encoded(v.mimetype), "size"@);
    lemma_lookup_push(m2, "w"@, <u32>::encoded(v.w), "size"@);
    lemma_lookup_push(m1, "h"@, <u32>::encoded(v.h), "size"@);
    lemma_lookup_push(m0, "duration"@, <u32>::encoded(v.duration), "size"@);
    lemma_lookup_empty("size"@);
    lemma_lookup_push(
        m6,
        "thumbnail_info"@,
        <ImageInfo>::encoded(v.thumbnail_info),
        "thumbnail_url"@,
    );
    lemma_lookup_push(m5, "thumbnail_url"@, <String>::encoded(v.thumbnail_url), "thumbnail_url"@);
    lemma_lookup_push(m4, "size"@, <u32>::encoded(v.size), "thumbnail_url"@);
    lemma_lookup_push(m3, "mimetype"@, <String>::encoded(v.mimetype), "thumbnail_url"@);
    lemma_lookup_push(m2, "w"@, <u32>::encoded(v.w), "thumbnail_url"@);
    lemma_lookup_push(m1, "h"@, <u32>::encoded(v.h), "thumbnail_url"@);
    lemma_lookup_push(m0, "duration"@, <u32>::encoded(v.duration), "thumbnail_url"@);
    lemma_lookup_empty("thumbnail_url"@);
    lemma_lookup_push(
        m6,
        "thumbnail_info"@,
        <ImageInfo>::encoded(v.thumbnail_info),
        "thumbnail_info"@,
    );
    lemma_lookup_push(m5, "thumbnail_url"@, <String>::encoded(v.thumbnail_url), "thumbnail_info"@);
    lemma_lookup_push(m4, "size"@, <u32>::encoded(v.size), "thumbnail_info"@);
    lemma_lookup_push(m3, "mimetype"@, <String>::encoded(v.mimetype), "thumbnail_info"@);
    lemma_lookup_push(m2, "w"@, <u32>::encoded(v.w), "thumbnail_info"@);
    lemma_lookup_push(m1, "h"@, <u32>::encoded(v.h), "thumbnail_info"@);
    lemma_lookup_push(m0, "duration"@, <u32>::encoded(v.duration), "thumbnail_info"@);
    lemma_lookup_empty("thumbnail_info"@);
    lemma_image_info_round_trip(v.thumbnail_info);
}

/// Writing a message and reading it again gives it back: each member that is there is kept,
/// and a member that is absent is left out and read as absent.
pub proof fn lemma_message_round_trip(v: MessageView)
    ensures
        Message::decoded(Message::encoded(v)) == Some(v),
{
    reveal_strlit("m.text");
    reveal_strlit("m.notice");
    reveal_strlit("m.image");
    reveal_strlit("m.emote");
    reveal_strlit("m.file");
    reveal_strlit("m.location");
    reveal_strlit("m.audio");
    reveal_strlit("m.video");
    assert("m.text"@.len() != "m.notice"@.len());
    assert("m.text"@.len() != "m.image"@.len());
    assert("m.text"@.len() != "m.emote"@.len());
    assert("m.text"@[2] != "m.file"@[2]);
    assert("m.text"@.len() != "m.location"@.len());
    assert("m.text"@.len() != "m.audio"@.len());
    assert("m.text"@.len() != "m.video"@.len());
    assert("m.notice"@.len() != "m.image"@.len());
    assert("m.notice"@.len() != "m.emote"@.len());
    assert("m.notice"@.len() != "m.file"@.len());
    assert("m.notice"@.len() != "m.location"@.len());
    assert("m.notice"@.len() != "m.audio"@.len());
    assert("m.notice"@.len() != "m.video"@.len());
    assert("m.image"@[2] != "m.emote"@[2]);
    assert("m.image"@.len() != "m.file"@.len());
    assert("m.image"@.len() != "m.location"@.len());
    assert("m.image"@[2] != "m.audio"@[2]);
    assert("m.image"@[2] != "m.video"@[2]);
    assert("m.emote"@.len() != "m.file"@.len());
    assert("m.emote"@.len() != "m.location"@.len());
    assert("m.emote"@[2] != "m.audio"@[2]);
    assert("m.emote"@[2] != "m.video"@[2]);
    assert("m.file"@.len() != "m.location"@.len());
    assert("m.file"@.len() != "m.audio"@.len());
    assert("m.file"@.len() != "m.video"@.len());
    assert("m.location"@.len() != "m.audio"@.len());
    assert("m.location"@.len() != "m.video"@.len());
    assert("m.audio"@[2] != "m.video"@[2]);
    reveal_strlit("msgtype");
    let m0 = Seq::<(Seq<char>, JsonView)>::empty().push(("msgtype"@, JsonView::Str(v.tag())));
    match v {
        MessageView::Text { body, formatted_body, format } => {
            reveal_strlit("body");
            reveal_strlit("formatted_body");
            reveal_strlit("format");
            assert("msgtype"@.len() != "body"@.len());
            assert("msgtype"@.len() != "formatted_body"@.len());
            assert("msgtype"@.len() != "format"@.len());
            assert("body"@.len() != "formatted_body"@.len());
            assert("body"@.len() != "format"@.len());
            assert("formatted_body"@.len() != "format"@.len());
            let m1 = m0.push(("body"@, <String>::encoded(body)));
            let m2 = with_opt::<String>(m1, "formatted_body"@, formatted_body);
            let m3 = with_opt::<String>(m2, "format"@, format);
            lemma_lookup_with_opt::<String>(m2, "format"@, format, "msgtype"@);
            lemma_lookup_with_opt::<String>(m1, "formatted_body"@, formatted_body, "msgtype"@);
            lemma_lookup_push(m0, "body"@, <String>::encoded(body), "msgtype"@);
            lemma_lookup_push(Seq::empty(), "msgtype"@, JsonView::Str(v.tag()), "msgtype"@);
            lemma_lookup_with_opt::<String>(m2, "format"@, format, "body"@);
            lemma_lookup_with_opt::<String>(m1, "formatted_body"@, formatted_body, "body"@);
            lemma_lookup_push(m0, "body"@, <String>::encoded(body), "body"@);
            lemma_lookup_push(Seq::empty(), "msgtype"@, JsonView::Str(v.tag()), "body"@);
            lemma_lookup_with_opt::<String>(m2, "format"@, format, "formatted_body"@);
            lemma_lookup_with_opt::<String>(
                m1,
                "formatted_body"@,
                formatted_body,
                "formatted_body"@,
            );
            lemma_lookup_push(m0, "body"@, <String>::encoded(body), "formatted_body"@);
            lemma_lookup_push(Seq::empty(), "msgtype"@, JsonView::Str(v.tag()), "formatted_body"@);
            lemma_lookup_with_opt::<String>(m2, "format"@, format, "format"@);
            lemma_lookup_with_opt::<String>(m1, "formatted_body"@, formatted_body, "format"@);
            lemma_lookup_push(m0, "body"@, <String>::encoded(body), "format"@);
            lemma_lookup_push(Seq::empty(), "msgtype"@, JsonView::Str(v.tag()), "format"@);
        },
        MessageView::Notice { body, formatted_body, format } => {
            reveal_strlit("body");
            reveal_strlit("formatted_body");
            reveal_strlit("format");
            assert("msgtype"@.len() != "body"@.len());
            assert("msgtype"@.len() != "formatted_body"@.len());
            assert("msgtype"@.len() != "format"@.len());
            assert("body"@.len() != "formatted_body"@.len());
            assert("body"@.len() != "format"@.len());
            assert("formatted_body"@.len() != "format"@.len());
            let m1 = m0.push(("body"@, <String>::encoded(body)));
            let m2 = with_opt::<String>(m1, "formatted_body"@, formatted_body);
            let m3 = with_opt::<String>(m2, "format"@, format);
            lemma_lookup_with_opt::<String>(m2, "format"@, format, "msgtype"@);
            lemma_lookup_with_opt::<String>(m1, "formatted_body"@, formatted_body, "msgtype"@);
            lemma_lookup_push(m0, "body"@, <String>::encoded(body), "msgtype"@);
            lemma_lookup_push(Seq::empty(), "msgtype"@, JsonView::Str(v.tag()), "msgtype"@);
            lemma_lookup_with_opt::<String>(m2, "format"@, format, "body"@);
            lemma_lookup_with_opt::<String>(m1, "formatted_body"@, formatted_body, "body"@);
            lemma_lookup_push(m0, "body"@, <String>::encoded(body), "body"@);
            lemma_lookup_push(Seq::empty(), "msgtype"@, JsonView::Str(v.tag()), "body"@);
            lemma_lookup_with_opt::<String>(m2, "format"@, format, "formatted_body"@);
            lemma_lookup_with_opt::<String>(
                m1,
                "formatted_body"@,
                formatted_body,
                "formatted_body"@,
            );
            lemma_lookup_push(m0, "body"@, <String>::encoded(body), "formatted_body"@);
            lemma_lookup_push(Seq::empty(), "msgtype"@, JsonView::Str(v.tag()), "formatted_body"@);
            lemma_lookup_with_opt::<String>(m2, "format"@, format, "format"@);
            lemma_lookup_with_opt::<String>(m1, "formatted_body"@, formatted_body, "format"@);
            lemma_lookup_push(m0, "body"@, <String>::encoded(body), "format"@);
            lemma_lookup_push(Seq::empty(), "msgtype"@, JsonView::Str(v.tag()), "format"@);
        },
        MessageView::Image { body, url, info, thumbnail_url, thumbnail_info } => {
            reveal_strlit("body");
            reveal_strlit("url");
            reveal_strlit("info");
            reveal_strlit("thumbnail_url");
            reveal_strlit("thumbnail_info");
            assert("msgtype"@.len() != "body"@.len());
            assert("msgtype"@.len() != "url"@.len());
            assert("msgtype"@.len() != "info"@.len());
            assert("msgtype"@.len() != "thumbnail_url"@.len());
            assert("msgtype"@.len() != "thumbnail_info"@.len());
            assert("body"@.len() != "url"@.len());
            assert("body"@[0] != "info"@[0]);
            assert("body"@.len() != "thumbnail_url"@.len());
            assert("body"@.len() != "thumbnail_info"@.len());
            assert("url"@.len() != "info"@.len());
            assert("url"@.len() != "thumbnail_url"@.len());
            assert("url"@.len() != "thumbnail_info"@.len());
            assert("info"@.len() != "thumbnail_url"@.len());
            assert("info"@.len() != "thumbnail_info"@.len());
            assert("thumbnail_url"@.len() != "thumbnail_info"@.len());
            let m1 = m0.push(("body"@, <String>::encoded(body)));
            let m2 = m1.push(("url"@, <String>::encoded(url)));
            let m3 = with_opt::<ImageInfo>(m2, "info"@, info);
            let m4 = with_opt::<String>(m3, "thumbnail_url"@, thumbnail_url);
            let m5 = with_opt::<ImageInfo>(m4, "thumbnail_info"@, thumbnail_info);
            lemma_lookup_with_opt::<ImageInfo>(m4, "thumbnail_info"@, thumbnail_info, "msgtype"@);
            lemma_lookup_with_opt::<String>(m3, "thumbnail_url"@, thumbnail_url, "msgtype"@);
            lemma_lookup_with_opt::<ImageInfo>(m2, "info"@, info, "msgtype"@);
            lemma_lookup_push(m1, "url"@, <String>::encoded(url), "msgtype"@);
            lemma_lookup_push(m0, "body"@, <String>::encoded(body), "msgtype"@);
            lemma_lookup_push(Seq::empty(), "msgtype"@, JsonView::Str(v.tag()), "msgtype"@);
            lemma_lookup_with_opt::<ImageInfo>(m4, "thumbnail_info"@, thumbnail_info, "body"@);
            lemma_lookup_with_opt::<String>(m3, "thumbnail_url"@, thumbnail_url, "body"@);
            lemma_lookup_with_opt::<ImageInfo>(m2, "info"@, info, "body"@);
            lemma_lookup_push(m1, "url"@, <String>::encoded(url), "body"@);
            lemma_lookup_push(m0, "body"@, <String>::encoded(body), "body"@);
            lemma_lookup_push(Seq::empty(), "msgtype"@, JsonView::Str(v.tag()), "body"@);
            lemma_lookup_with_opt::<ImageInfo>(m4, "thumbnail_info"@, thumbnail_info, "url"@);
            lemma_lookup_with_opt::<String>(m3, "thumbnail_url"@, thumbnail_url, "url"@);
            lemma_lookup_with_opt::<ImageInfo>(m2, "info"@, info, "url"@);
            lemma_lookup_push(m1, "url"@, <String>::encoded(url), "url"@);
            lemma_lookup_push(m0, "body"@, <String>::encoded(body), "url"@);
            lemma_lookup_push(Seq::empty(), "msgtype"@, JsonView::Str(v.tag()), "url"@);
            lemma_lookup_with_opt::<ImageInfo>(m4, "thumbnail_info"@, thumbnail_info, "info"@);
            lemma_lookup_with_opt::<String>(m3, "thumbnail_url"@, thumbnail_url, "info"@);
            lemma_lookup_with_opt::<ImageInfo>(m2, "info"@, info, "info"@);
            lemma_lookup_push(m1, "url"@, <String>::encoded(url), "info"@);
            lemma_lookup_push(m0, "body"@, <String>::encoded(body), "info"@);
            lemma_lookup_push(Seq::empty(), "msgtype"@, JsonView::Str(v.tag()), "info"@);
            lemma_lookup_with_opt::<ImageInfo>(
                m4,
                "thumbnail_info"@,
                thumbnail_info,
                "thumbnail_url"@,
            );
            lemma_lookup_with_opt::<String>(m3, "thumbnail_url"@, thumbnail_url, "thumbnail_url"@);
            lemma_lookup_with_opt::<ImageInfo>(m2, "info"@, info, "thumbnail_url"@);
            lemma_lookup_push(m1, "url"@, <String>::encoded(url), "thumbnail_url"@);
            lemma_lookup_push(m0, "body"@, <String>::encoded(body), "thumbnail_url"@);
            lemma_lookup_push(Seq::empty(), "msgtype"@, JsonView::Str(v.tag()), "thumbnail_url"@);
            lemma_lookup_with_opt::<ImageInfo>(
                m4,
                "thumbnail_info"@,
                thumbnail_info,
                "thumbnail_info"@,
            );
            lemma_lookup_with_opt::<String>(m3, "thumbnail_url"@, thumbnail_url, "thumbnail_info"@);
            lemma_lookup_with_opt::<ImageInfo>(m2, "info"@, info, "thumbnail_info"@);
            lemma_lookup_push(m1, "url"@, <String>::encoded(url), "thumbnail_info"@);
            lemma_lookup_push(m0, "body"@, <String>::encoded(body), "thumbnail_info"@);
            lemma_lookup_push(Seq::empty(), "msgtype"@, JsonView::Str(v.tag()), "thumbnail_info"@);
            if info is Some {
                lemma_image_info_round_trip(info->0);
            }
            if thumbnail_info is Some {
                lemma_image_info_round_trip(thumbnail_info->0);
            }
        },
        MessageView::Emote { body } => {
            reveal_strlit("body");
            assert("msgtype"@.len() != "body"@.len());
            let m1 = m0.push(("body"@, <String>::encoded(body)));
            lemma_lookup_push(m0, "body"@, <String>::encoded(body), "msgtype"@);
            lemma_lookup_push(Seq::empty(), "msgtype"@, JsonView::Str(v.tag()), "msgtype"@);
            lemma_lookup_push(m0, "body"@, <String>::encoded(body), "body"@);
            lemma_lookup_push(Seq::empty(), "msgtype"@, JsonView::Str(v.tag()), "body"@);
        },
        MessageView::File { body, filename, info, thumbnail_info, thumbnail_url, url } => {
            reveal_strlit("body");
            reveal_strlit("filename");
            reveal_strlit("info");
            reveal_strlit("thumbnail_info");
            reveal_strlit("thumbnail_url");
            reveal_strlit("url");
            assert("msgtype"@.len() != "body"@.len());
            assert("msgtype"@.len() != "filename"@.len());
            assert("msgtype"@.len() != "info"@.len());
            assert("msgtype"@.len() != "thumbnail_info"@.len());
            assert("msgtype"@.len() != "thumbnail_url"@.len());
            assert("msgtype"@.len() != "url"@.len());
            assert("body"@.len() != "filename"@.len());
            assert("body"@[0] != "info"@[0]);
            assert("body"@.len() != "thumbnail_info"@.len());
            assert("body"@.len() != "thumbnail_url"@.len());
            assert("body"@.len() != "url"@.len());
            assert("filename"@.len() != "info"@.len());
            assert("filename"@.len() != "thumbnail_info"@.len());
            assert("filename"@.len() != "thumbnail_url"@.len());
            assert("filename"@.len() != "url"@.len());
            assert("info"@.len() != "thumbnail_info"@.len());
            assert("info"@.len() != "thumbnail_url"@.len());
            assert("info"@.len() != "url"@.len());
            assert("thumbnail_info"@.len() != "thumbnail_url"@.len());
            assert("thumbnail_info"@.len() != "url"@.len());
            assert("thumbnail_url"@.len() != "url"@.len());
            let m1 = m0.push(("body"@, <String>::encoded(body)));
            let m2 = m1.push(("filename"@, <String>::encoded(filename)));
            let m3 = with_opt::<FileInfo>(m2, "info"@, info);
            let m4 = with_opt::<ImageInfo>(m3, "thumbnail_info"@, thumbnail_info);
            let m5 = with_opt::<String>(m4, "thumbnail_url"@, thumbnail_url);
            let m6 = m5.push(("url"@, <String>::encoded(url)));
            lemma_lookup_push(m5, "url"@, <String>::encoded(url), "msgtype"@);
            lemma_lookup_with_opt::<String>(m4, "thumbnail_url"@, thumbnail_url, "msgtype"@);
            lemma_lookup_with_opt::<ImageInfo>(m3, "thumbnail_info"@, thumbnail_info, "msgtype"@);
            lemma_lookup_with_opt::<FileInfo>(m2, "info"@, info, "msgtype"@);
            lemma_lookup_push(m1, "filename"@, <String>::encoded(filename), "msgtype"@);
            lemma_lookup_push(m0, "body"@, <String>::encoded(body), "msgtype"@);
            lemma_lookup_push(Seq::empty(), "msgtype"@, JsonView::Str(v.tag()), "msgtype"@);
            lemma_lookup_push(m5, "url"@, <String>::encoded(url), "body"@);
            lemma_lookup_with_opt::<String>(m4, "thumbnail_url"@, thumbnail_url, "body"@);
            lemma_lookup_with_opt::<ImageInfo>(m3, "thumbnail_info"@, thumbnail_info, "body"@);
            lemma_lookup_with_opt::<FileInfo>(m2, "info"@, info, "body"@);
            lemma_lookup_push(m1, "filename"@, <String>::encoded(filename), "body"@);
            lemma_lookup_push(m0, "body"@, <String>::encoded(body), "body"@);
            lemma_lookup_push(Seq::empty(), "msgtype"@, JsonView::Str(v.tag()), "body"@);
            lemma_lookup_push(m5, "url"@, <String>::encoded(url), "filename"@);
            lemma_lookup_with_opt::<String>(m4, "thumbnail_url"@, thumbnail_url, "filename"@);
            lemma_lookup_with_opt::<ImageInfo>(m3, "thumbnail_info"@, thumbnail_info, "filename"@);
            lemma_lookup_with_opt::<FileInfo>(m2, "info"@, info, "filename"@);
            lemma_lookup_push(m1, "filename"@, <String>::encoded(filename), "filename"@);
            lemma_lookup_push(m0, "body"@, <String>::encoded(body), "filename"@);
            lemma_lookup_push(Seq::empty(), "msgtype"@, JsonView::Str(v.tag()), "filename"@);
            lemma_lookup_push(m5, "url"@, <String>::encoded(url), "info"@);
            lemma_lookup_with_opt::<String>(m4, "thumbnail_url"@, thumbnail_url, "info"@);
            lemma_lookup_with_opt::<ImageInfo>(m3, "thumbnail_info"@, thumbnail_info, "info"@);
            lemma_lookup_with_opt::<FileInfo>(m2, "info"@, info, "info"@);
            lemma_lookup_push(m1, "filename"@, <String>::encoded(filename), "info"@);
            lemma_lookup_push(m0, "body"@, <String>::encoded(body), "info"@);
            lemma_lookup_push(Seq::empty(), "msgtype"@, JsonView::Str(v.tag()), "info"@);
            lemma_lookup_push(m5, "url"@, <String>::encoded(url), "thumbnail_info"@);
            lemma_lookup_with_opt::<String>(m4, "thumbnail_url"@, thumbnail_url, "thumbnail_info"@);
            lemma_lookup_with_opt::<ImageInfo>(
                m3,
                "thumbnail_info"@,
                thumbnail_info,
                "thumbnail_info"@,
            );
            lemma_lookup_with_opt::<FileInfo>(m2, "info"@, info, "thumbnail_info"@);
            lemma_lookup_push(m1, "filename"@, <String>::encoded(filename), "thumbnail_info"@);
            lemma_lookup_push(m0, "body"@, <String>::encoded(body), "thumbnail_info"@);
            lemma_lookup_push(Seq::empty(), "msgtype"@, JsonView::Str(v.tag()), "thumbnail_info"@);
            lemma_lookup_push(m5, "url"@, <String>::encoded(url), "thumbnail_url"@);
            lemma_lookup_with_opt::<String>(m4, "thumbnail_url"@, thumbnail_url, "thumbnail_url"@);
            lemma_lookup_with_opt::<ImageInfo>(
                m3,
                "thumbnail_info"@,
                thumbnail_info,
                "thumbnail_url"@,
            );
            lemma_lookup_with_opt::<FileInfo>(m2, "info"@, info, "thumbnail_url"@);
            lemma_lookup_push(m1, "filename"@, <String>::encoded(filename), "thumbnail_url"@);
            lemma_lookup_push(m0, "body"@, <String>::encoded(body), "thumbnail_url"@);
            lemma_lookup_push(Seq::empty(), "msgtype"@, JsonView::Str(v.tag()), "thumbnail_url"@);
            lemma_lookup_push(m5, "url"@, <String>::encoded(url), "url"@);
            lemma_lookup_with_opt::<String>(m4, "thumbnail_url"@, thumbnail_url, "url"@);
            lemma_lookup_with_opt::<ImageInfo>(m3, "thumbnail_info"@, thumbnail_info, "url"@);
            lemma_lookup_with_opt::<FileInfo>(m2, "info"@, info, "url"@);
            lemma_lookup_push(m1, "filename"@, <String>::encoded(filename), "url"@);
            lemma_lookup_push(m0, "body"@, <String>::encoded(body), "url"@);
            lemma_lookup_push(Seq::empty(), "msgtype"@, JsonView::Str(v.tag()), "url"@);
            if info is Some {
                lemma_file_info_round_trip(info->0);
            }
            if thumbnail_info is Some {
                lemma_image_info_round_trip(thumbnail_info->0);
            }
        },
        MessageView::Location { body, geo_uri } => {
            reveal_strlit("body");
            reveal_strlit("geo_uri");
            assert("msgtype"@.len() != "body"@.len());
            assert("msgtype"@[0] != "geo_uri"@[0]);
            assert("body"@.len() != "geo_uri"@.len());
            let m1 = m0.push(("body"@, <String>::encoded(body)));
            let m2 = m1.push(("geo_uri"@, <String>::encoded(geo_uri)));
            lemma_lookup_push(m1, "geo_uri"@, <String>::encoded(geo_uri), "msgtype"@);
            lemma_lookup_push(m0, "body"@, <String>::encoded(body), "msgtype"@);
            lemma_lookup_push(Seq::empty(), "msgtype"@, JsonView::Str(v.tag()), "msgtype"@);
            lemma_lookup_push(m1, "geo_uri"@, <String>::encoded(geo_uri), "body"@);
            lemma_lookup_push(m0, "body"@, <String>::encoded(body), "body"@);
            lemma_lookup_push(Seq::empty(), "msgtype"@, JsonView::Str(v.tag()), "body"@);
            lemma_lookup_push(m1, "geo_uri"@, <String>::encoded(geo_uri), "geo_uri"@);
            lemma_lookup_push(m0, "body"@, <String>::encoded(body), "geo_uri"@);
            lemma_lookup_push(Seq::empty(), "msgtype"@, JsonView::Str(v.tag()), "geo_uri"@);
        },
        MessageView::Audio { body, url, info } => {
            reveal_strlit("body");
            reveal_strlit("url");
            reveal_strlit("info");
            assert("msgtype"@.len() != "body"@.len());
            assert("msgtype"@.len() != "url"@.len());
            assert("msgtype"@.len() != "info"@.len());
            assert("body"@.len() != "url"@.len());
            assert("body"@[0] != "info"@[0]);
            assert("url"@.len() != "info"@.len());
            let m1 = m0.push(("body"@, <String>::encoded(body)));
            let m2 = m1.push(("url"@, <String>::encoded(url)));
            let m3 = with_opt::<AudioInfo>(m2, "info"@, info);
            lemma_lookup_with_opt::<AudioInfo>(m2, "info"@, info, "msgtype"@);
            lemma_lookup_push(m1, "url"@, <String>::encoded(url), "msgtype"@);
            lemma_lookup_push(m0, "body"@, <String>::encoded(body), "msgtype"@);
            lemma_lookup_push(Seq::empty(), "msgtype"@, JsonView::Str(v.tag()), "msgtype"@);
            lemma_lookup_with_opt::<AudioInfo>(m2, "info"@, info, "body"@);
            lemma_lookup_push(m1, "url"@, <String>::encoded(url), "body"@);
            lemma_lookup_push(m0, "body"@, <String>::encoded(body), "body"@);
            lemma_lookup_push(Seq::empty(), "msgtype"@, JsonView::Str(v.tag()), "body"@);
            lemma_lookup_with_opt::<AudioInfo>(m2, "info"@, info, "url"@);
            lemma_lookup_push(m1, "url"@, <String>::encoded(url), "url"@);
            lemma_lookup_push(m0, "body"@, <String>::encoded(body), "url"@);
            lemma_lookup_push(Seq::empty(), "msgtype"@, JsonView::Str(v.tag()), "url"@);
            lemma_lookup_with_opt::<AudioInfo>(m2, "info"@, info, "info"@);
            lemma_lookup_push(m1, "url"@, <String>::encoded(url), "info"@);
            lemma_lookup_push(m0, "body"@, <String>::encoded(body), "info"@);
            lemma_lookup_push(Seq::empty(), "msgtype"@, JsonView::Str(v.tag()), "info"@);
            if info is Some {
                lemma_audio_info_round_trip(info->0);
            }
        },
        MessageView::Video { body, url, info } => {
            reveal_strlit("body");
            reveal_strlit("url");
            reveal_strlit("info");
            assert("msgtype"@.len() != "body"@.len());
            assert("msgtype"@.len() != "url"@.len());
            assert("msgtype"@.len() != "info"@.len());
            assert("body"@.len() != "url"@.len());
            assert("body"@[0] != "info"@[0]);
            assert("url"@.len() != "info"@.len());
            let m1 = m0.push(("body"@, <String>::encoded(body)));
            let m2 = m1.push(("url"@, <String>::encoded(url)));
            let m3 = with_opt::<VideoInfo>(m2, "info"@, info);
            lemma_lookup_with_opt::<VideoInfo>(m2, "info"@, info, "msgtype"@);
            lemma_lookup_push(m1, "url"@, <String>::encoded(url), "msgtype"@);
            lemma_lookup_push(m0, "body"@, <String>::encoded(body), "msgtype"@);
            lemma_lookup_push(Seq::empty(), "msgtype"@, JsonView::Str(v.tag()), "msgtype"@);
            lemma_lookup_with_opt::<VideoInfo>(m2, "info"@, info, "body"@);
            lemma_lookup_push(m1, "url"@, <String>::encoded(url), "body"@);
            lemma_lookup_push(m0, "body"@, <String>::encoded(body), "body"@);
            lemma_lookup_push(Seq::empty(), "msgtype"@, JsonView::Str(v.tag()), "body"@);
            lemma_lookup_with_opt::<VideoInfo>(m2, "info"@, info, "url"@);
            lemma_lookup_push(m1, "url"@, <String>::encoded(url), "url"@);
            lemma_lookup_push(m0, "body"@, <String>::encoded(body), "url"@);
            lemma_lookup_push(Seq::empty(), "msgtype"@, JsonView::Str(v.tag()), "url"@);
            lemma_lookup_with_opt::<VideoInfo>(m2, "info"@, info, "info"@);
            lemma_lookup_push(m1, "url"@, <String>::encoded(url), "info"@);
            lemma_lookup_push(m0, "body"@, <String>::encoded(body), "info"@);
            lemma_lookup_push(Seq::empty(), "msgtype"@, JsonView::Str(v.tag()), "info"@);
            if info is Some {
                lemma_video_info_round_trip(info->0);
            }
        },
    }
}

impl MessageView {
    /// Whether a variant has a member of the given name.
    pub open spec fn has_member(self, key: Seq<char>) -> bool {
        match self {
            MessageView::Text { .. } => {
                ||| key == "msgtype"@
                ||| key == "body"@
                ||| key == "formatted_body"@
                ||| key == "format"@
            },
            MessageView::Notice { .. } => {
                ||| key == "msgtype"@
                ||| key == "body"@
                ||| key == "formatted_body"@
                ||| key == "format"@
            },
            MessageView::Image { .. } => {
                ||| key == "msgtype"@
                ||| key == "body"@
                ||| key == "url"@
                ||| key == "info"@
                ||| key == "thumbnail_url"@
                ||| key == "thumbnail_info"@
            },
            MessageView::Emote { .. } => {
                ||| key == "msgtype"@
                ||| key == "body"@
            },
            MessageView::File { .. } => {
                ||| key == "msgtype"@
                ||| key == "body"@
                ||| key == "filename"@
                ||| key == "info"@
                ||| key == "thumbnail_info"@
                ||| key == "thumbnail_url"@
                ||| key == "url"@
            },
            MessageView::Location { .. } => {
                ||| key == "msgtype"@
                ||| key == "body"@
                ||| key == "geo_uri"@
            },
            MessageView::Audio { .. } => {
                ||| key == "msgtype"@
                ||| key == "body"@
                ||| key == "url"@
                ||| key == "info"@
            },
            MessageView::Video { .. } => {
                ||| key == "msgtype"@
                ||| key == "body"@
                ||| key == "url"@
                ||| key == "info"@
            },
        }
    }
}

/// Reading a message and writing it again keeps each of its members that was there, and
/// writes no member that was absent (missing or `null`).
pub proof fn lemma_message_reencoded(j: JsonView, key: Seq<char>)
    requires
        Message::decoded(j) is Some,
    ensures
        Message::encoded(Message::decoded(j)->0).field(key) is Some ==> j.member(key) is Some,
        Message::decoded(j)->0.has_member(key) && j.member(key) is Some ==> Message::encoded(
            Message::decoded(j)->0,
        ).field(key) is Some,
{
    let v = Message::decoded(j)->0;
    let m0 = Seq::<(Seq<char>, JsonView)>::empty().push(("msgtype"@, JsonView::Str(v.tag())));
    lemma_lookup_push(Seq::empty(), "msgtype"@, JsonView::Str(v.tag()), key);
    lemma_lookup_empty(key);
    match v {
        MessageView::Text { body, formatted_body, format } => {
            let m1 = m0.push(("body"@, <String>::encoded(body)));
            let m2 = with_opt::<String>(m1, "formatted_body"@, formatted_body);
            let m3 = with_opt::<String>(m2, "format"@, format);
            lemma_lookup_push(m0, "body"@, <String>::encoded(body), key);
            lemma_lookup_with_opt::<String>(m1, "formatted_body"@, formatted_body, key);
            lemma_lookup_with_opt::<String>(m2, "format"@, format, key);
        },
        MessageView::Notice { body, formatted_body, format } => {
            let m1 = m0.push(("body"@, <String>::encoded(body)));
            let m2 = with_opt::<String>(m1, "formatted_body"@, formatted_body);
            let m3 = with_opt::<String>(m2, "format"@, format);
            lemma_lookup_push(m0, "body"@, <String>::encoded(body), key);
            lemma_lookup_with_opt::<String>(m1, "formatted_body"@, formatted_body, key);
            lemma_lookup_with_opt::<String>(m2, "format"@, format, key);
        },
        MessageView::Image { body, url, info, thumbnail_url, thumbnail_info } => {
            let m1 = m0.push(("body"@, <String>::encoded(body)));
            let m2 = m1.push(("url"@, <String>::encoded(url)));
            let m3 = with_opt::<ImageInfo>(m2, "info"@, info);
            let m4 = with_opt::<String>(m3, "thumbnail_url"@, thumbnail_url);
            let m5 = with_opt::<ImageInfo>(m4, "thumbnail_info"@, thumbnail_info);
            lemma_lookup_push(m0, "body"@, <String>::encoded(body), key);
            lemma_lookup_push(m1, "url"@, <String>::encoded(url), key);
            lemma_lookup_with_opt::<ImageInfo>(m2, "info"@, info, key);
            lemma_lookup_with_opt::<String>(m3, "thumbnail_url"@, thumbnail_url, key);
            lemma_lookup_with_opt::<ImageInfo>(m4, "thumbnail_info"@, thumbnail_info, key);
        },
        MessageView::Emote { body } => {
            let m1 = m0.push(("body"@, <String>::encoded(body)));
            lemma_lookup_push(m0, "body"@, <String>::encoded(body), key);
        },
        MessageView::File { body, filename, info, thumbnail_info, thumbnail_url, url } => {
            let m1 = m0.push(("body"@, <String>::encoded(body)));
            let m2 = m1.push(("filename"@, <String>::encoded(filename)));
            let m3 = with_opt::<FileInfo>(m2, "info"@, info);
            let m4 = with_opt::<ImageInfo>(m3, "thumbnail_info"@, thumbnail_info);
            let m5 = with_opt::<String>(m4, "thumbnail_url"@, thumbnail_url);
            let m6 = m5.push(("url"@, <String>::encoded(url)));
            lemma_lookup_push(m0, "body"@, <String>::encoded(body), key);
            lemma_lookup_push(m1, "filename"@, <String>::encoded(filename), key);
            lemma_lookup_with_opt::<FileInfo>(m2, "info"@, info, key);
            lemma_lookup_with_opt::<ImageInfo>(m3, "thumbnail_info"@, thumbnail_info, key);
            lemma_lookup_with_opt::<String>(m4, "thumbnail_url"@, thumbnail_url, key);
            lemma_lookup_push(m5, "url"@, <String>::encoded(url), key);
        },
        MessageView::Location { body, geo_uri } => {
            let m1 = m0.push(("body"@, <String>::encoded(body)));
            let m2 = m1.push(("geo_uri"@, <String>::encoded(geo_uri)));
            lemma_lookup_push(m0, "body"@, <String>::encoded(body), key);
            lemma_lookup_push(m1, "geo_uri"@, <String>::encoded(geo_uri), key);
        },
        MessageView::Audio { body, url, info } => {
            let m1 = m0.push(("body"@, <String>::encoded(body)));
            let m2 = m1.push(("url"@, <String>::encoded(url)));
            let m3 = with_opt::<AudioInfo>(m2, "info"@, info);
            lemma_lookup_push(m0, "body"@, <String>::encoded(body), key);
            lemma_lookup_push(m1, "url"@, <String>::encoded(url), key);
            lemma_lookup_with_opt::<AudioInfo>(m2, "info"@, info, key);
        },
        MessageView::Video { body, url, info } => {
            let m1 = m0.push(("body"@, <String>::encoded(body)));
            let m2 = m1.push(("url"@, <String>::encoded(url)));
            let m3 = with_opt::<VideoInfo>(m2, "info"@, info);
            lemma_lookup_push(m0, "body"@, <String>::encoded(body), key);
            lemma_lookup_push(m1, "url"@, <String>::encoded(url), key);
            lemma_lookup_with_opt::<VideoInfo>(m2, "info"@, info, key);
        },
    }
}

} // verus!
