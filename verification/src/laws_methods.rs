//! Which methods belong to the embedded browser.

use crate::methods;
use crate::text;
use vstd::prelude::*;

verus! {

proof fn lemma_all_begin(list: Seq<Seq<char>>, name: Seq<char>)
    requires
        forall|k: int| 0 <= k < list.len() ==> text::begins(#[trigger] list[k], "browser."@),
        text::begins(name, "browser."@),
    ensures
        forall|k: int|
            0 <= k < list.push(name).len() ==> text::begins(
                #[trigger] list.push(name)[k],
                "browser."@,
            ),
{
}

/// The methods that are listed as ones of the embedded browser are of its family.
pub proof fn law_listed_is_browser(method: Seq<char>)
    requires
        methods::browser().contains(method),
    ensures
        text::begins(method, "browser."@),
{
    reveal_strlit("browser.");
    let list = Seq::<Seq<char>>::empty();
    assert(text::begins("browser.open_split"@, "browser."@)) by {
        reveal_strlit("browser.open_split");
        assert("browser.open_split"@.take(8) =~= "browser."@);
    }
    lemma_all_begin(list, "browser.open_split"@);
    let list = list.push("browser.open_split"@);
    assert(text::begins("browser.navigate"@, "browser."@)) by {
        reveal_strlit("browser.navigate");
        assert("browser.navigate"@.take(8) =~= "browser."@);
    }
    lemma_all_begin(list, "browser.navigate"@);
    let list = list.push("browser.navigate"@);
    assert(text::begins("browser.back"@, "browser."@)) by {
        reveal_strlit("browser.back");
        assert("browser.back"@.take(8) =~= "browser."@);
    }
    lemma_all_begin(list, "browser.back"@);
    let list = list.push("browser.back"@);
    assert(text::begins("browser.forward"@, "browser."@)) by {
        reveal_strlit("browser.forward");
        assert("browser.forward"@.take(8) =~= "browser."@);
    }
    lemma_all_begin(list, "browser.forward"@);
    let list = list.push("browser.forward"@);
    assert(text::begins("browser.reload"@, "browser."@)) by {
        reveal_strlit("browser.reload");
        assert("browser.reload"@.take(8) =~= "browser."@);
    }
    lemma_all_begin(list, "browser.reload"@);
    let list = list.push("browser.reload"@);
    assert(text::begins("browser.url.get"@, "browser."@)) by {
        reveal_strlit("browser.url.get");
        assert("browser.url.get"@.take(8) =~= "browser."@);
    }
    lemma_all_begin(list, "browser.url.get"@);
    let list = list.push("browser.url.get"@);
    assert(text::begins("browser.snapshot"@, "browser."@)) by {
        reveal_strlit("browser.snapshot");
        assert("browser.snapshot"@.take(8) =~= "browser."@);
    }
    lemma_all_begin(list, "browser.snapshot"@);
    let list = list.push("browser.snapshot"@);
    assert(text::begins("browser.eval"@, "browser."@)) by {
        reveal_strlit("browser.eval");
        assert("browser.eval"@.take(8) =~= "browser."@);
    }
    lemma_all_begin(list, "browser.eval"@);
    let list = list.push("browser.eval"@);
    assert(text::begins("browser.wait"@, "browser."@)) by {
        reveal_strlit("browser.wait");
        assert("browser.wait"@.take(8) =~= "browser."@);
    }
    lemma_all_begin(list, "browser.wait"@);
    let list = list.push("browser.wait"@);
    assert(text::begins("browser.click"@, "browser."@)) by {
        reveal_strlit("browser.click");
        assert("browser.click"@.take(8) =~= "browser."@);
    }
    lemma_all_begin(list, "browser.click"@);
    let list = list.push("browser.click"@);
    assert(text::begins("browser.dblclick"@, "browser."@)) by {
        reveal_strlit("browser.dblclick");
        assert("browser.dblclick"@.take(8) =~= "browser."@);
    }
    lemma_all_begin(list, "browser.dblclick"@);
    let list = list.push("browser.dblclick"@);
    assert(text::begins("browser.hover"@, "browser."@)) by {
        reveal_strlit("browser.hover");
        assert("browser.hover"@.take(8) =~= "browser."@);
    }
    lemma_all_begin(list, "browser.hover"@);
    let list = list.push("browser.hover"@);
    assert(text::begins("browser.focus"@, "browser."@)) by {
        reveal_strlit("browser.focus");
        assert("browser.focus"@.take(8) =~= "browser."@);
    }
    lemma_all_begin(list, "browser.focus"@);
    let list = list.push("browser.focus"@);
    assert(text::begins("browser.type"@, "browser."@)) by {
        reveal_strlit("browser.type");
        assert("browser.type"@.take(8) =~= "browser."@);
    }
    lemma_all_begin(list, "browser.type"@);
    let list = list.push("browser.type"@);
    assert(text::begins("browser.fill"@, "browser."@)) by {
        reveal_strlit("browser.fill");
        assert("browser.fill"@.take(8) =~= "browser."@);
    }
    lemma_all_begin(list, "browser.fill"@);
    let list = list.push("browser.fill"@);
    assert(text::begins("browser.press"@, "browser."@)) by {
        reveal_strlit("browser.press");
        assert("browser.press"@.take(8) =~= "browser."@);
    }
    lemma_all_begin(list, "browser.press"@);
    let list = list.push("browser.press"@);
    assert(text::begins("browser.keydown"@, "browser."@)) by {
        reveal_strlit("browser.keydown");
        assert("browser.keydown"@.take(8) =~= "browser."@);
    }
    lemma_all_begin(list, "browser.keydown"@);
    let list = list.push("browser.keydown"@);
    assert(text::begins("browser.keyup"@, "browser."@)) by {
        reveal_strlit("browser.keyup");
        assert("browser.keyup"@.take(8) =~= "browser."@);
    }
    lemma_all_begin(list, "browser.keyup"@);
    let list = list.push("browser.keyup"@);
    assert(text::begins("browser.check"@, "browser."@)) by {
        reveal_strlit("browser.check");
        assert("browser.check"@.take(8) =~= "browser."@);
    }
    lemma_all_begin(list, "browser.check"@);
    let list = list.push("browser.check"@);
    assert(text::begins("browser.uncheck"@, "browser."@)) by {
        reveal_strlit("browser.uncheck");
        assert("browser.uncheck"@.take(8) =~= "browser."@);
    }
    lemma_all_begin(list, "browser.uncheck"@);
    let list = list.push("browser.uncheck"@);
    assert(text::begins("browser.select"@, "browser."@)) by {
        reveal_strlit("browser.select");
        assert("browser.select"@.take(8) =~= "browser."@);
    }
    lemma_all_begin(list, "browser.select"@);
    let list = list.push("browser.select"@);
    assert(text::begins("browser.scroll"@, "browser."@)) by {
        reveal_strlit("browser.scroll");
        assert("browser.scroll"@.take(8) =~= "browser."@);
    }
    lemma_all_begin(list, "browser.scroll"@);
    let list = list.push("browser.scroll"@);
    assert(text::begins("browser.scroll_into_view"@, "browser."@)) by {
        reveal_strlit("browser.scroll_into_view");
        assert("browser.scroll_into_view"@.take(8) =~= "browser."@);
    }
    lemma_all_begin(list, "browser.scroll_into_view"@);
    let list = list.push("browser.scroll_into_view"@);
    assert(text::begins("browser.screenshot"@, "browser."@)) by {
        reveal_strlit("browser.screenshot");
        assert("browser.screenshot"@.take(8) =~= "browser."@);
    }
    lemma_all_begin(list, "browser.screenshot"@);
    let list = list.push("browser.screenshot"@);
    assert(text::begins("browser.get.text"@, "browser."@)) by {
        reveal_strlit("browser.get.text");
        assert("browser.get.text"@.take(8) =~= "browser."@);
    }
    lemma_all_begin(list, "browser.get.text"@);
    let list = list.push("browser.get.text"@);
    assert(text::begins("browser.get.html"@, "browser."@)) by {
        reveal_strlit("browser.get.html");
        assert("browser.get.html"@.take(8) =~= "browser."@);
    }
    lemma_all_begin(list, "browser.get.html"@);
    let list = list.push("browser.get.html"@);
    assert(text::begins("browser.get.value"@, "browser."@)) by {
        reveal_strlit("browser.get.value");
        assert("browser.get.value"@.take(8) =~= "browser."@);
    }
    lemma_all_begin(list, "browser.get.value"@);
    let list = list.push("browser.get.value"@);
    assert(text::begins("browser.get.attr"@, "browser."@)) by {
        reveal_strlit("browser.get.attr");
        assert("browser.get.attr"@.take(8) =~= "browser."@);
    }
    lemma_all_begin(list, "browser.get.attr"@);
    let list = list.push("browser.get.attr"@);
    assert(text::begins("browser.get.title"@, "browser."@)) by {
        reveal_strlit("browser.get.title");
        assert("browser.get.title"@.take(8) =~= "browser."@);
    }
    lemma_all_begin(list, "browser.get.title"@);
    let list = list.push("browser.get.title"@);
    assert(text::begins("browser.get.count"@, "browser."@)) by {
        reveal_strlit("browser.get.count");
        assert("browser.get.count"@.take(8) =~= "browser."@);
    }
    lemma_all_begin(list, "browser.get.count"@);
    let list = list.push("browser.get.count"@);
    assert(text::begins("browser.get.box"@, "browser."@)) by {
        reveal_strlit("browser.get.box");
        assert("browser.get.box"@.take(8) =~= "browser."@);
    }
    lemma_all_begin(list, "browser.get.box"@);
    let list = list.push("browser.get.box"@);
    assert(text::begins("browser.get.styles"@, "browser."@)) by {
        reveal_strlit("browser.get.styles");
        assert("browser.get.styles"@.take(8) =~= "browser."@);
    }
    lemma_all_begin(list, "browser.get.styles"@);
    let list = list.push("browser.get.styles"@);
    assert(text::begins("browser.is.visible"@, "browser."@)) by {
        reveal_strlit("browser.is.visible");
        assert("browser.is.visible"@.take(8) =~= "browser."@);
    }
    lemma_all_begin(list, "browser.is.visible"@);
    let list = list.push("browser.is.visible"@);
    assert(text::begins("browser.is.enabled"@, "browser."@)) by {
        reveal_strlit("browser.is.enabled");
        assert("browser.is.enabled"@.take(8) =~= "browser."@);
    }
    lemma_all_begin(list, "browser.is.enabled"@);
    let list = list.push("browser.is.enabled"@);
    assert(text::begins("browser.is.checked"@, "browser."@)) by {
        reveal_strlit("browser.is.checked");
        assert("browser.is.checked"@.take(8) =~= "browser."@);
    }
    lemma_all_begin(list, "browser.is.checked"@);
    let list = list.push("browser.is.checked"@);
    assert(text::begins("browser.focus_webview"@, "browser."@)) by {
        reveal_strlit("browser.focus_webview");
        assert("browser.focus_webview"@.take(8) =~= "browser."@);
    }
    lemma_all_begin(list, "browser.focus_webview"@);
    let list = list.push("browser.focus_webview"@);
    assert(text::begins("browser.is_webview_focused"@, "browser."@)) by {
        reveal_strlit("browser.is_webview_focused");
        assert("browser.is_webview_focused"@.take(8) =~= "browser."@);
    }
    lemma_all_begin(list, "browser.is_webview_focused"@);
    let list = list.push("browser.is_webview_focused"@);
    assert(text::begins("browser.find.role"@, "browser."@)) by {
        reveal_strlit("browser.find.role");
        assert("browser.find.role"@.take(8) =~= "browser."@);
    }
    lemma_all_begin(list, "browser.find.role"@);
    let list = list.push("browser.find.role"@);
    assert(text::begins("browser.find.text"@, "browser."@)) by {
        reveal_strlit("browser.find.text");
        assert("browser.find.text"@.take(8) =~= "browser."@);
    }
    lemma_all_begin(list, "browser.find.text"@);
    let list = list.push("browser.find.text"@);
    assert(text::begins("browser.find.label"@, "browser."@)) by {
        reveal_strlit("browser.find.label");
        assert("browser.find.label"@.take(8) =~= "browser."@);
    }
    lemma_all_begin(list, "browser.find.label"@);
    let list = list.push("browser.find.label"@);
    assert(text::begins("browser.find.placeholder"@, "browser."@)) by {
        reveal_strlit("browser.find.placeholder");
        assert("browser.find.placeholder"@.take(8) =~= "browser."@);
    }
    lemma_all_begin(list, "browser.find.placeholder"@);
    let list = list.push("browser.find.placeholder"@);
    assert(text::begins("browser.find.alt"@, "browser."@)) by {
        reveal_strlit("browser.find.alt");
        assert("browser.find.alt"@.take(8) =~= "browser."@);
    }
    lemma_all_begin(list, "browser.find.alt"@);
    let list = list.push("browser.find.alt"@);
    assert(text::begins("browser.find.title"@, "browser."@)) by {
        reveal_strlit("browser.find.title");
        assert("browser.find.title"@.take(8) =~= "browser."@);
    }
    lemma_all_begin(list, "browser.find.title"@);
    let list = list.push("browser.find.title"@);
    assert(text::begins("browser.find.testid"@, "browser."@)) by {
        reveal_strlit("browser.find.testid");
        assert("browser.find.testid"@.take(8) =~= "browser."@);
    }
    lemma_all_begin(list, "browser.find.testid"@);
    let list = list.push("browser.find.testid"@);
    assert(text::begins("browser.find.first"@, "browser."@)) by {
        reveal_strlit("browser.find.first");
        assert("browser.find.first"@.take(8) =~= "browser."@);
    }
    lemma_all_begin(list, "browser.find.first"@);
    let list = list.push("browser.find.first"@);
    assert(text::begins("browser.find.last"@, "browser."@)) by {
        reveal_strlit("browser.find.last");
        assert("browser.find.last"@.take(8) =~= "browser."@);
    }
    lemma_all_begin(list, "browser.find.last"@);
    let list = list.push("browser.find.last"@);
    assert(text::begins("browser.find.nth"@, "browser."@)) by {
        reveal_strlit("browser.find.nth");
        assert("browser.find.nth"@.take(8) =~= "browser."@);
    }
    lemma_all_begin(list, "browser.find.nth"@);
    let list = list.push("browser.find.nth"@);
    assert(text::begins("browser.frame.select"@, "browser."@)) by {
        reveal_strlit("browser.frame.select");
        assert("browser.frame.select"@.take(8) =~= "browser."@);
    }
    lemma_all_begin(list, "browser.frame.select"@);
    let list = list.push("browser.frame.select"@);
    assert(text::begins("browser.frame.main"@, "browser."@)) by {
        reveal_strlit("browser.frame.main");
        assert("browser.frame.main"@.take(8) =~= "browser."@);
    }
    lemma_all_begin(list, "browser.frame.main"@);
    let list = list.push("browser.frame.main"@);
    assert(text::begins("browser.dialog.accept"@, "browser."@)) by {
        reveal_strlit("browser.dialog.accept");
        assert("browser.dialog.accept"@.take(8) =~= "browser."@);
    }
    lemma_all_begin(list, "browser.dialog.accept"@);
    let list = list.push("browser.dialog.accept"@);
    assert(text::begins("browser.dialog.dismiss"@, "browser."@)) by {
        reveal_strlit("browser.dialog.dismiss");
        assert("browser.dialog.dismiss"@.take(8) =~= "browser."@);
    }
    lemma_all_begin(list, "browser.dialog.dismiss"@);
    let list = list.push("browser.dialog.dismiss"@);
    assert(text::begins("browser.download.wait"@, "browser."@)) by {
        reveal_strlit("browser.download.wait");
        assert("browser.download.wait"@.take(8) =~= "browser."@);
    }
    lemma_all_begin(list, "browser.download.wait"@);
    let list = list.push("browser.download.wait"@);
    assert(text::begins("browser.cookies.get"@, "browser."@)) by {
        reveal_strlit("browser.cookies.get");
        assert("browser.cookies.get"@.take(8) =~= "browser."@);
    }
    lemma_all_begin(list, "browser.cookies.get"@);
    let list = list.push("browser.cookies.get"@);
    assert(text::begins("browser.cookies.set"@, "browser."@)) by {
        reveal_strlit("browser.cookies.set");
        assert("browser.cookies.set"@.take(8) =~= "browser."@);
    }
    lemma_all_begin(list, "browser.cookies.set"@);
    let list = list.push("browser.cookies.set"@);
    assert(text::begins("browser.cookies.clear"@, "browser."@)) by {
        reveal_strlit("browser.cookies.clear");
        assert("browser.cookies.clear"@.take(8) =~= "browser."@);
    }
    lemma_all_begin(list, "browser.cookies.clear"@);
    let list = list.push("browser.cookies.clear"@);
    assert(text::begins("browser.storage.get"@, "browser."@)) by {
        reveal_strlit("browser.storage.get");
        assert("browser.storage.get"@.take(8) =~= "browser."@);
    }
    lemma_all_begin(list, "browser.storage.get"@);
    let list = list.push("browser.storage.get"@);
    assert(text::begins("browser.storage.set"@, "browser."@)) by {
        reveal_strlit("browser.storage.set");
        assert("browser.storage.set"@.take(8) =~= "browser."@);
    }
    lemma_all_begin(list, "browser.storage.set"@);
    let list = list.push("browser.storage.set"@);
    assert(text::begins("browser.storage.clear"@, "browser."@)) by {
        reveal_strlit("browser.storage.clear");
        assert("browser.storage.clear"@.take(8) =~= "browser."@);
    }
    lemma_all_begin(list, "browser.storage.clear"@);
    let list = list.push("browser.storage.clear"@);
    assert(text::begins("browser.tab.new"@, "browser."@)) by {
        reveal_strlit("browser.tab.new");
        assert("browser.tab.new"@.take(8) =~= "browser."@);
    }
    lemma_all_begin(list, "browser.tab.new"@);
    let list = list.push("browser.tab.new"@);
    assert(text::begins("browser.tab.list"@, "browser."@)) by {
        reveal_strlit("browser.tab.list");
        assert("browser.tab.list"@.take(8) =~= "browser."@);
    }
    lemma_all_begin(list, "browser.tab.list"@);
    let list = list.push("browser.tab.list"@);
    assert(text::begins("browser.tab.switch"@, "browser."@)) by {
        reveal_strlit("browser.tab.switch");
        assert("browser.tab.switch"@.take(8) =~= "browser."@);
    }
    lemma_all_begin(list, "browser.tab.switch"@);
    let list = list.push("browser.tab.switch"@);
    assert(text::begins("browser.tab.close"@, "browser."@)) by {
        reveal_strlit("browser.tab.close");
        assert("browser.tab.close"@.take(8) =~= "browser."@);
    }
    lemma_all_begin(list, "browser.tab.close"@);
    let list = list.push("browser.tab.close"@);
    assert(text::begins("browser.console.list"@, "browser."@)) by {
        reveal_strlit("browser.console.list");
        assert("browser.console.list"@.take(8) =~= "browser."@);
    }
    lemma_all_begin(list, "browser.console.list"@);
    let list = list.push("browser.console.list"@);
    assert(text::begins("browser.console.clear"@, "browser."@)) by {
        reveal_strlit("browser.console.clear");
        assert("browser.console.clear"@.take(8) =~= "browser."@);
    }
    lemma_all_begin(list, "browser.console.clear"@);
    let list = list.push("browser.console.clear"@);
    assert(text::begins("browser.errors.list"@, "browser."@)) by {
        reveal_strlit("browser.errors.list");
        assert("browser.errors.list"@.take(8) =~= "browser."@);
    }
    lemma_all_begin(list, "browser.errors.list"@);
    let list = list.push("browser.errors.list"@);
    assert(text::begins("browser.highlight"@, "browser."@)) by {
        reveal_strlit("browser.highlight");
        assert("browser.highlight"@.take(8) =~= "browser."@);
    }
    lemma_all_begin(list, "browser.highlight"@);
    let list = list.push("browser.highlight"@);
    assert(text::begins("browser.state.save"@, "browser."@)) by {
        reveal_strlit("browser.state.save");
        assert("browser.state.save"@.take(8) =~= "browser."@);
    }
    lemma_all_begin(list, "browser.state.save"@);
    let list = list.push("browser.state.save"@);
    assert(text::begins("browser.state.load"@, "browser."@)) by {
        reveal_strlit("browser.state.load");
        assert("browser.state.load"@.take(8) =~= "browser."@);
    }
    lemma_all_begin(list, "browser.state.load"@);
    let list = list.push("browser.state.load"@);
    assert(text::begins("browser.addinitscript"@, "browser."@)) by {
        reveal_strlit("browser.addinitscript");
        assert("browser.addinitscript"@.take(8) =~= "browser."@);
    }
    lemma_all_begin(list, "browser.addinitscript"@);
    let list = list.push("browser.addinitscript"@);
    assert(text::begins("browser.addscript"@, "browser."@)) by {
        reveal_strlit("browser.addscript");
        assert("browser.addscript"@.take(8) =~= "browser."@);
    }
    lemma_all_begin(list, "browser.addscript"@);
    let list = list.push("browser.addscript"@);
    assert(text::begins("browser.addstyle"@, "browser."@)) by {
        reveal_strlit("browser.addstyle");
        assert("browser.addstyle"@.take(8) =~= "browser."@);
    }
    lemma_all_begin(list, "browser.addstyle"@);
    let list = list.push("browser.addstyle"@);
    assert(text::begins("browser.viewport.set"@, "browser."@)) by {
        reveal_strlit("browser.viewport.set");
        assert("browser.viewport.set"@.take(8) =~= "browser."@);
    }
    lemma_all_begin(list, "browser.viewport.set"@);
    let list = list.push("browser.viewport.set"@);
    assert(text::begins("browser.geolocation.set"@, "browser."@)) by {
        reveal_strlit("browser.geolocation.set");
        assert("browser.geolocation.set"@.take(8) =~= "browser."@);
    }
    lemma_all_begin(list, "browser.geolocation.set"@);
    let list = list.push("browser.geolocation.set"@);
    assert(text::begins("browser.offline.set"@, "browser."@)) by {
        reveal_strlit("browser.offline.set");
        assert("browser.offline.set"@.take(8) =~= "browser."@);
    }
    lemma_all_begin(list, "browser.offline.set"@);
    let list = list.push("browser.offline.set"@);
    assert(text::begins("browser.trace.start"@, "browser."@)) by {
        reveal_strlit("browser.trace.start");
        assert("browser.trace.start"@.take(8) =~= "browser."@);
    }
    lemma_all_begin(list, "browser.trace.start"@);
    let list = list.push("browser.trace.start"@);
    assert(text::begins("browser.trace.stop"@, "browser."@)) by {
        reveal_strlit("browser.trace.stop");
        assert("browser.trace.stop"@.take(8) =~= "browser."@);
    }
    lemma_all_begin(list, "browser.trace.stop"@);
    let list = list.push("browser.trace.stop"@);
    assert(text::begins("browser.network.route"@, "browser."@)) by {
        reveal_strlit("browser.network.route");
        assert("browser.network.route"@.take(8) =~= "browser."@);
    }
    lemma_all_begin(list, "browser.network.route"@);
    let list = list.push("browser.network.route"@);
    assert(text::begins("browser.network.unroute"@, "browser."@)) by {
        reveal_strlit("browser.network.unroute");
        assert("browser.network.unroute"@.take(8) =~= "browser."@);
    }
    lemma_all_begin(list, "browser.network.unroute"@);
    let list = list.push("browser.network.unroute"@);
    assert(text::begins("browser.network.requests"@, "browser."@)) by {
        reveal_strlit("browser.network.requests");
        assert("browser.network.requests"@.take(8) =~= "browser."@);
    }
    lemma_all_begin(list, "browser.network.requests"@);
    let list = list.push("browser.network.requests"@);
    assert(text::begins("browser.screencast.start"@, "browser."@)) by {
        reveal_strlit("browser.screencast.start");
        assert("browser.screencast.start"@.take(8) =~= "browser."@);
    }
    lemma_all_begin(list, "browser.screencast.start"@);
    let list = list.push("browser.screencast.start"@);
    assert(text::begins("browser.screencast.stop"@, "browser."@)) by {
        reveal_strlit("browser.screencast.stop");
        assert("browser.screencast.stop"@.take(8) =~= "browser."@);
    }
    lemma_all_begin(list, "browser.screencast.stop"@);
    let list = list.push("browser.screencast.stop"@);
    assert(text::begins("browser.input_mouse"@, "browser."@)) by {
        reveal_strlit("browser.input_mouse");
        assert("browser.input_mouse"@.take(8) =~= "browser."@);
    }
    lemma_all_begin(list, "browser.input_mouse"@);
    let list = list.push("browser.input_mouse"@);
    assert(text::begins("browser.input_keyboard"@, "browser."@)) by {
        reveal_strlit("browser.input_keyboard");
        assert("browser.input_keyboard"@.take(8) =~= "browser."@);
    }
    lemma_all_begin(list, "browser.input_keyboard"@);
    let list = list.push("browser.input_keyboard"@);
    assert(text::begins("browser.input_touch"@, "browser."@)) by {
        reveal_strlit("browser.input_touch");
        assert("browser.input_touch"@.take(8) =~= "browser."@);
    }
    lemma_all_begin(list, "browser.input_touch"@);
    let list = list.push("browser.input_touch"@);
    assert(list =~= methods::browser());
}

/// No method that is answered is one of the embedded browser.
pub proof fn law_answered_is_no_browser(method: Seq<char>)
    requires
        methods::answered().contains(method),
    ensures
        !text::begins(method, "browser."@),
{
    methods::lemma_answered(method);
    reveal_strlit("browser.");
    assert("browser."@[0] == 'b');
    reveal_strlit("system.ping");
    assert("system.ping"@[0] != 'b');
    reveal_strlit("system.capabilities");
    assert("system.capabilities"@[0] != 'b');
    reveal_strlit("system.identify");
    assert("system.identify"@[0] != 'b');
    reveal_strlit("window.list");
    assert("window.list"@[0] != 'b');
    reveal_strlit("window.current");
    assert("window.current"@[0] != 'b');
    reveal_strlit("window.focus");
    assert("window.focus"@[0] != 'b');
    reveal_strlit("window.create");
    assert("window.create"@[0] != 'b');
    reveal_strlit("window.close");
    assert("window.close"@[0] != 'b');
    reveal_strlit("workspace.list");
    assert("workspace.list"@[0] != 'b');
    reveal_strlit("workspace.create");
    assert("workspace.create"@[0] != 'b');
    reveal_strlit("workspace.rename");
    assert("workspace.rename"@[0] != 'b');
    reveal_strlit("workspace.reorder");
    assert("workspace.reorder"@[0] != 'b');
    reveal_strlit("workspace.select");
    assert("workspace.select"@[0] != 'b');
    reveal_strlit("workspace.current");
    assert("workspace.current"@[0] != 'b');
    reveal_strlit("workspace.next");
    assert("workspace.next"@[0] != 'b');
    reveal_strlit("workspace.previous");
    assert("workspace.previous"@[0] != 'b');
    reveal_strlit("workspace.last");
    assert("workspace.last"@[0] != 'b');
    reveal_strlit("workspace.move_to_window");
    assert("workspace.move_to_window"@[0] != 'b');
    reveal_strlit("workspace.action");
    assert("workspace.action"@[0] != 'b');
    reveal_strlit("workspace.close");
    assert("workspace.close"@[0] != 'b');
    reveal_strlit("pane.list");
    assert("pane.list"@[0] != 'b');
    reveal_strlit("pane.surfaces");
    assert("pane.surfaces"@[0] != 'b');
    reveal_strlit("pane.swap");
    assert("pane.swap"@[0] != 'b');
    reveal_strlit("pane.break");
    assert("pane.break"@[0] != 'b');
    reveal_strlit("pane.join");
    assert("pane.join"@[0] != 'b');
    reveal_strlit("pane.focus");
    assert("pane.focus"@[0] != 'b');
    reveal_strlit("pane.last");
    assert("pane.last"@[0] != 'b');
    reveal_strlit("pane.create");
    assert("pane.create"@[0] != 'b');
    reveal_strlit("surface.list");
    assert("surface.list"@[0] != 'b');
    reveal_strlit("surface.current");
    assert("surface.current"@[0] != 'b');
    reveal_strlit("surface.action");
    assert("surface.action"@[0] != 'b');
    reveal_strlit("surface.focus");
    assert("surface.focus"@[0] != 'b');
    reveal_strlit("surface.split");
    assert("surface.split"@[0] != 'b');
    reveal_strlit("surface.create");
    assert("surface.create"@[0] != 'b');
    reveal_strlit("surface.close");
    assert("surface.close"@[0] != 'b');
    reveal_strlit("surface.move");
    assert("surface.move"@[0] != 'b');
    reveal_strlit("surface.reorder");
    assert("surface.reorder"@[0] != 'b');
    reveal_strlit("surface.drag_to_split");
    assert("surface.drag_to_split"@[0] != 'b');
    reveal_strlit("surface.refresh");
    assert("surface.refresh"@[0] != 'b');
    reveal_strlit("surface.clear_history");
    assert("surface.clear_history"@[0] != 'b');
    reveal_strlit("surface.send_text");
    assert("surface.send_text"@[0] != 'b');
    reveal_strlit("surface.send_key");
    assert("surface.send_key"@[0] != 'b');
    reveal_strlit("surface.read_text");
    assert("surface.read_text"@[0] != 'b');
    reveal_strlit("surface.health");
    assert("surface.health"@[0] != 'b');
    reveal_strlit("surface.trigger_flash");
    assert("surface.trigger_flash"@[0] != 'b');
    reveal_strlit("notification.create");
    assert("notification.create"@[0] != 'b');
    reveal_strlit("notification.create_for_surface");
    assert("notification.create_for_surface"@[0] != 'b');
    reveal_strlit("notification.list");
    assert("notification.list"@[0] != 'b');
    reveal_strlit("notification.clear");
    assert("notification.clear"@[0] != 'b');
    reveal_strlit("app.focus_override.set");
    assert("app.focus_override.set"@[0] != 'b');
    reveal_strlit("app.simulate_active");
    assert("app.simulate_active"@[0] != 'b');
    reveal_strlit("debug.app.activate");
    assert("debug.app.activate"@[0] != 'b');
    reveal_strlit("debug.bonsplit_underflow.count");
    assert("debug.bonsplit_underflow.count"@[0] != 'b');
    reveal_strlit("debug.bonsplit_underflow.reset");
    assert("debug.bonsplit_underflow.reset"@[0] != 'b');
    reveal_strlit("debug.command_palette.rename_input.select_all");
    assert("debug.command_palette.rename_input.select_all"@[0] != 'b');
    reveal_strlit("debug.command_palette.rename_input.selection");
    assert("debug.command_palette.rename_input.selection"@[0] != 'b');
    reveal_strlit("debug.command_palette.rename_input.interact");
    assert("debug.command_palette.rename_input.interact"@[0] != 'b');
    reveal_strlit("debug.command_palette.rename_input.delete_backward");
    assert("debug.command_palette.rename_input.delete_backward"@[0] != 'b');
    reveal_strlit("debug.command_palette.rename_tab.open");
    assert("debug.command_palette.rename_tab.open"@[0] != 'b');
    reveal_strlit("debug.command_palette.results");
    assert("debug.command_palette.results"@[0] != 'b');
    reveal_strlit("debug.command_palette.selection");
    assert("debug.command_palette.selection"@[0] != 'b');
    reveal_strlit("debug.command_palette.toggle");
    assert("debug.command_palette.toggle"@[0] != 'b');
    reveal_strlit("debug.command_palette.visible");
    assert("debug.command_palette.visible"@[0] != 'b');
    reveal_strlit("debug.empty_panel.count");
    assert("debug.empty_panel.count"@[0] != 'b');
    reveal_strlit("debug.empty_panel.reset");
    assert("debug.empty_panel.reset"@[0] != 'b');
    reveal_strlit("debug.layout");
    assert("debug.layout"@[0] != 'b');
    reveal_strlit("debug.notification.focus");
    assert("debug.notification.focus"@[0] != 'b');
    reveal_strlit("debug.panel_snapshot");
    assert("debug.panel_snapshot"@[0] != 'b');
    reveal_strlit("debug.panel_snapshot.reset");
    assert("debug.panel_snapshot.reset"@[0] != 'b');
    reveal_strlit("debug.portal.stats");
    assert("debug.portal.stats"@[0] != 'b');
    reveal_strlit("debug.shortcut.set");
    assert("debug.shortcut.set"@[0] != 'b');
    reveal_strlit("debug.shortcut.simulate");
    assert("debug.shortcut.simulate"@[0] != 'b');
    reveal_strlit("debug.sidebar.visible");
    assert("debug.sidebar.visible"@[0] != 'b');
    reveal_strlit("debug.terminal.is_focused");
    assert("debug.terminal.is_focused"@[0] != 'b');
    reveal_strlit("debug.terminal.read_text");
    assert("debug.terminal.read_text"@[0] != 'b');
    reveal_strlit("debug.terminal.render_stats");
    assert("debug.terminal.render_stats"@[0] != 'b');
    reveal_strlit("debug.type");
    assert("debug.type"@[0] != 'b');
    reveal_strlit("debug.window.screenshot");
    assert("debug.window.screenshot"@[0] != 'b');
    reveal_strlit("debug.flash.count");
    assert("debug.flash.count"@[0] != 'b');
    reveal_strlit("debug.flash.reset");
    assert("debug.flash.reset"@[0] != 'b');
    reveal_strlit("tab.action");
    assert("tab.action"@[0] != 'b');
    if text::begins(method, "browser."@) {
        assert(method.take(8)[0] == method[0]);
    }
}

} // verus!
