//! The rendered HTML editor page.  The note's content is embedded,
//! HTML-escaped, inside the page's text area, and a short escaped excerpt
//! fills the page-metadata description attribute.  Rendering always
//! succeeds: an absent note renders as an empty editor.

use crate::escape::{escape_seq, html_attr_escape};
use vstd::prelude::*;

verus! {

/// Page text before the note id in the title.
pub open spec fn page_part_title() -> Seq<char> {
    r##"<!DOCTYPE html>
<html>
<head>
    <meta charset="utf-8">
    <meta name="viewport" content="width=device-width, initial-scale=1.0">
    <title>web-mini-note · "##@
}

/// Page text between the title and the description attribute.
pub open spec fn page_part_desc() -> Seq<char> {
    r##"</title>
    <link rel="shortcut icon" href="/favicon.ico">
    <link rel="stylesheet" href="/styles.css">
    <meta name="description" content="📔 "##@
}

/// Page text between the description and the embedded content.
pub open spec fn page_part_content() -> Seq<char> {
    r##"">
    <script src="/js/qrcode.min.js"></script>
    <script src="/js/clipboard.min.js"></script>
    <script src="/js/marked.min.js"></script>
    <script src="/js/mousetrap.min.js"></script>
</head>
<body>
    <div id="sidebar" class="sidebar">
        <script src="/history.js"></script>
        <span class="close-btn" onclick="toggleSidebar()">&times;</span>
        <h3>Recent Notes</h3>
        <ul id="history-list"></ul>
    </div>
    <div class="container">
        <div id="qrcodePopup">
            <div id="qrcode"></div>
        </div>
        <textarea class="mousetrap" id="content" spellcheck="false" autocapitalize="off" autocomplete="off" autocorrect="off">"##@
}

/// Page text between the embedded content and the note link.
pub open spec fn page_part_link() -> Seq<char> {
    r##"</textarea>
        <button id="clippy" class="btn">
            <img src="/clippy.svg" alt="Copy to clipboard" style="width: 12px; height: 16px;">
        </button>
        <div id="markdown-content" style="display: none"></div>
        <div class="link">
            <a href="/">💡 new &nbsp;|&nbsp;</a>
            <a href="#" id="renderMarkdown">note/"##@
}

/// Page text after the note link, including the upload script.
pub open spec fn page_part_tail() -> Seq<char> {
    r##"&nbsp;<label id="renderStatus" style="cursor: pointer">🔓</label></a>
            <a href="#" id="showQRCode" class="copyBtn">&nbsp; | &nbsp;🔗 share</a>
            <a href="#" id="showHistory" class="showHistory">&nbsp; | &nbsp;📜 history</a>
            <a href="#" id="uploadTrigger">&nbsp; | &nbsp;⤴ upload</a>
        </div>
    </div>
    <pre id="printable"></pre>
    <div id="qrcode"></div>
    <script src="/markdown.js"></script>
    <script src="/copy.js"></script>
    <script src="/script.js"></script>
    <input type="file" id="fileInput" style="display:none" />

    <script>
    (function(){
      var el = document.getElementById('uploadTrigger');
      var input = document.getElementById('fileInput');
      var ta = document.getElementById('content');
      if(el && input && ta){
        el.addEventListener('click', function(e){ e.preventDefault(); input.click(); });
        input.addEventListener('change', async function(){
          if(!input.files || input.files.length === 0) return;
          var f = input.files[0];
          if(f.size > 100*1024*1024){ showNotification('file too large (>100MB)'); return; }
          var fd = new FormData();
          fd.append('file', f);
          try{
            showNotification('uploading...');
            var resp = await fetch('/upload', { method: 'POST', body: fd });
            if(!resp.ok){ showNotification('upload failed'); return; }
            var data = await resp.json();
            var cursorPos = ta.selectionStart || 0;
            var before = ta.value.substring(0, cursorPos);
            var after = ta.value.substring(cursorPos);
            var insert = '';
            if(data.is_image){
              insert = '![](' + data.url + ')';
            } else {
              insert = '[' + (data.name || 'attachment') + '](' + data.url + ')';
            }
            ta.value = before + insert + after;
            ta.selectionStart = ta.selectionEnd = cursorPos + insert.length;
            ta.focus();
            showNotification('uploaded');
          }catch(e){
            showNotification('upload error');
          }finally{
            input.value = '';
          }
        });
      }
    })();
    </script>
    </body>
    </html>
    "##@
}

/// The whole rendered page: template text around the note id (twice), the
/// escaped excerpt in the description attribute, and the already-escaped
/// content in the text area.
pub open spec fn rendered_page(note: Seq<char>, content_escaped: Seq<char>, excerpt: Seq<
    char,
>) -> Seq<char> {
    page_part_title() + note + page_part_desc() + escape_seq(excerpt) + page_part_content()
        + content_escaped + page_part_link() + note + page_part_tail()
}

/// Renders the editor page for one note.  `content_escaped` must already be
/// HTML-escaped by the caller; the excerpt is escaped here for its place
/// inside an attribute value.
pub fn render_html(note: &str, content_escaped: &str, excerpt: &str) -> (r: String)
    ensures
        r@ == rendered_page(note@, content_escaped@, excerpt@),
{
    let desc = html_attr_escape(excerpt);
    let mut out = String::from_str(
        r##"<!DOCTYPE html>
<html>
<head>
    <meta charset="utf-8">
    <meta name="viewport" content="width=device-width, initial-scale=1.0">
    <title>web-mini-note · "##,
    );
    out.append(note);
    out.append(
        r##"</title>
    <link rel="shortcut icon" href="/favicon.ico">
    <link rel="stylesheet" href="/styles.css">
    <meta name="description" content="📔 "##,
    );
    out.append(desc.as_str());
    out.append(
        r##"">
    <script src="/js/qrcode.min.js"></script>
    <script src="/js/clipboard.min.js"></script>
    <script src="/js/marked.min.js"></script>
    <script src="/js/mousetrap.min.js"></script>
</head>
<body>
    <div id="sidebar" class="sidebar">
        <script src="/history.js"></script>
        <span class="close-btn" onclick="toggleSidebar()">&times;</span>
        <h3>Recent Notes</h3>
        <ul id="history-list"></ul>
    </div>
    <div class="container">
        <div id="qrcodePopup">
            <div id="qrcode"></div>
        </div>
        <textarea class="mousetrap" id="content" spellcheck="false" autocapitalize="off" autocomplete="off" autocorrect="off">"##,
    );
    out.append(content_escaped);
    out.append(
        r##"</textarea>
        <button id="clippy" class="btn">
            <img src="/clippy.svg" alt="Copy to clipboard" style="width: 12px; height: 16px;">
        </button>
        <div id="markdown-content" style="display: none"></div>
        <div class="link">
            <a href="/">💡 new &nbsp;|&nbsp;</a>
            <a href="#" id="renderMarkdown">note/"##,
    );
    out.append(note);
    out.append(
        r##"&nbsp;<label id="renderStatus" style="cursor: pointer">🔓</label></a>
            <a href="#" id="showQRCode" class="copyBtn">&nbsp; | &nbsp;🔗 share</a>
            <a href="#" id="showHistory" class="showHistory">&nbsp; | &nbsp;📜 history</a>
            <a href="#" id="uploadTrigger">&nbsp; | &nbsp;⤴ upload</a>
        </div>
    </div>
    <pre id="printable"></pre>
    <div id="qrcode"></div>
    <script src="/markdown.js"></script>
    <script src="/copy.js"></script>
    <script src="/script.js"></script>
    <input type="file" id="fileInput" style="display:none" />

    <script>
    (function(){
      var el = document.getElementById('uploadTrigger');
      var input = document.getElementById('fileInput');
      var ta = document.getElementById('content');
      if(el && input && ta){
        el.addEventListener('click', function(e){ e.preventDefault(); input.click(); });
        input.addEventListener('change', async function(){
          if(!input.files || input.files.length === 0) return;
          var f = input.files[0];
          if(f.size > 100*1024*1024){ showNotification('file too large (>100MB)'); return; }
          var fd = new FormData();
          fd.append('file', f);
          try{
            showNotification('uploading...');
            var resp = await fetch('/upload', { method: 'POST', body: fd });
            if(!resp.ok){ showNotification('upload failed'); return; }
            var data = await resp.json();
            var cursorPos = ta.selectionStart || 0;
            var before = ta.value.substring(0, cursorPos);
            var after = ta.value.substring(cursorPos);
            var insert = '';
            if(data.is_image){
              insert = '![](' + data.url + ')';
            } else {
              insert = '[' + (data.name || 'attachment') + '](' + data.url + ')';
            }
            ta.value = before + insert + after;
            ta.selectionStart = ta.selectionEnd = cursorPos + insert.length;
            ta.focus();
            showNotification('uploaded');
          }catch(e){
            showNotification('upload error');
          }finally{
            input.value = '';
          }
        });
      }
    })();
    </script>
    </body>
    </html>
    "##,
    );
    proof {
        assert(out@ =~= rendered_page(note@, content_escaped@, excerpt@));
    }
    out
}

} // verus!
